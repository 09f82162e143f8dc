//! The firewall programmer: the ruleset that forces the container's DNS
//! and TCP/UDP traffic into the proxy, and the transaction that installs
//! it with replace semantics.

use vstd::prelude::*;
use vstd::map::*;

verus! {

/// The chain that sees packets before routing.
pub const PREROUTING_CHAIN: &'static str = "PREROUTING";

/// The priority that places a chain before ordinary destination NAT.
pub const DNAT_PRIORITY: i32 = -100;

/// The one table of the ruleset.
pub const NAT_TABLE: &'static str = "nat";

/// The proxy's local DNS port.
pub const TOR_DNS: u32 = 5353;

/// The proxy's transparent-proxy port.
pub const PROXY_PORT: u32 = 9050;

/// An address family of the packet filter.
#[derive(Clone, Copy, Debug, PartialEq, Eq, Structural)]
pub enum NfFamily {
    IP,
    IP6,
    INet,
}

/// What a chain does with packets.
#[derive(Clone, Copy, Debug, PartialEq, Eq, Structural)]
pub enum NfChainType {
    Filter,
    Route,
    NAT,
}

/// Where a chain is attached.
#[derive(Clone, Copy, Debug, PartialEq, Eq, Structural)]
pub enum NfHook {
    Ingress,
    Prerouting,
    Forward,
    Input,
    Output,
    Postrouting,
}

/// What a chain does with a packet that no rule decided.
#[derive(Clone, Copy, Debug, PartialEq, Eq, Structural)]
pub enum NfChainPolicy {
    Accept,
    Drop,
}

/// The address family of a NAT statement.
#[derive(Clone, Copy, Debug, PartialEq, Eq, Structural)]
pub enum NatFamily {
    IP,
    IP6,
}

/// A comparison of a match statement.
#[derive(Clone, Copy, Debug, PartialEq, Eq, Structural)]
pub enum Operator {
    EQ,
    NEQ,
}

/// A table: the container of chains.
#[derive(Clone, Debug, PartialEq, Eq)]
pub struct Table {
    pub family: NfFamily,
    pub name: String,
}

/// A chain of a table.
#[derive(Clone, Debug, PartialEq, Eq)]
pub struct Chain {
    pub family: NfFamily,
    pub table: String,
    pub name: String,
    pub chain_type: Option<NfChainType>,
    pub hook: Option<NfHook>,
    pub prio: Option<i32>,
    pub dev: Option<String>,
    pub policy: Option<NfChainPolicy>,
}

/// A value that a match compares.
#[derive(Clone, Debug, PartialEq, Eq)]
pub enum Expression {
    /// A literal text.
    String(String),
    /// A literal number.
    Number(u32),
    /// The name of the interface a packet came in on.
    MetaIifname,
    /// A field of a protocol header.
    PayloadField { protocol: String, field: String },
}

/// One statement of a rule.
#[derive(Clone, Debug, PartialEq, Eq)]
pub enum Statement {
    /// Go on only if `left op right` holds of the packet.
    Match { left: Expression, right: Expression, op: Operator },
    /// Rewrite the packet's destination to a port of this host.
    Redirect { family: Option<NatFamily>, port: Option<u32> },
}

/// A rule of a chain.
#[derive(Clone, Debug, PartialEq, Eq)]
pub struct Rule {
    pub family: NfFamily,
    pub table: String,
    pub chain: String,
    pub expr: Vec<Statement>,
}

/// An object of a ruleset.
#[derive(Clone, Debug, PartialEq, Eq)]
pub enum NfListObject {
    Table(Table),
    Chain(Chain),
    Rule(Rule),
}

/// A command of a transaction.
#[derive(Clone, Debug, PartialEq, Eq)]
pub enum NfCmd {
    Add(NfListObject),
    Delete(NfListObject),
}

/// The mathematical value of a [`Table`].
pub struct TableView {
    pub family: NfFamily,
    pub name: Seq<char>,
}

/// The mathematical value of a [`Chain`].
pub struct ChainView {
    pub family: NfFamily,
    pub table: Seq<char>,
    pub name: Seq<char>,
    pub chain_type: Option<NfChainType>,
    pub hook: Option<NfHook>,
    pub prio: Option<i32>,
    pub dev: Option<Seq<char>>,
    pub policy: Option<NfChainPolicy>,
}

/// The mathematical value of an [`Expression`].
pub enum ExpressionView {
    String(Seq<char>),
    Number(u32),
    MetaIifname,
    PayloadField { protocol: Seq<char>, field: Seq<char> },
}

/// The mathematical value of a [`Statement`].
pub enum StatementView {
    Match { left: ExpressionView, right: ExpressionView, op: Operator },
    Redirect { family: Option<NatFamily>, port: Option<u32> },
}

/// The mathematical value of a [`Rule`].
pub struct RuleView {
    pub family: NfFamily,
    pub table: Seq<char>,
    pub chain: Seq<char>,
    pub expr: Seq<StatementView>,
}

/// The mathematical value of an [`NfListObject`].
pub enum NfListObjectView {
    Table(TableView),
    Chain(ChainView),
    Rule(RuleView),
}

/// The mathematical value of an [`NfCmd`].
pub enum NfCmdView {
    Add(NfListObjectView),
    Delete(NfListObjectView),
}

impl DeepView for Table {
    type V = TableView;

    open spec fn deep_view(&self) -> TableView {
        TableView { family: self.family, name: self.name@ }
    }
}

impl DeepView for Chain {
    type V = ChainView;

    open spec fn deep_view(&self) -> ChainView {
        ChainView {
            family: self.family,
            table: self.table@,
            name: self.name@,
            chain_type: self.chain_type,
            hook: self.hook,
            prio: self.prio,
            dev: self.dev.deep_view(),
            policy: self.policy,
        }
    }
}

impl DeepView for Expression {
    type V = ExpressionView;

    open spec fn deep_view(&self) -> ExpressionView {
        match self {
            Expression::String(s) => ExpressionView::String(s@),
            Expression::Number(n) => ExpressionView::Number(*n),
            Expression::MetaIifname => ExpressionView::MetaIifname,
            Expression::PayloadField { protocol, field } => ExpressionView::PayloadField {
                protocol: protocol@,
                field: field@,
            },
        }
    }
}

impl DeepView for Statement {
    type V = StatementView;

    open spec fn deep_view(&self) -> StatementView {
        match self {
            Statement::Match { left, right, op } => StatementView::Match {
                left: left.deep_view(),
                right: right.deep_view(),
                op: *op,
            },
            Statement::Redirect { family, port } => StatementView::Redirect {
                family: *family,
                port: *port,
            },
        }
    }
}

impl DeepView for Rule {
    type V = RuleView;

    open spec fn deep_view(&self) -> RuleView {
        RuleView {
            family: self.family,
            table: self.table@,
            chain: self.chain@,
            expr: self.expr.deep_view(),
        }
    }
}

impl DeepView for NfListObject {
    type V = NfListObjectView;

    open spec fn deep_view(&self) -> NfListObjectView {
        match self {
            NfListObject::Table(t) => NfListObjectView::Table(t.deep_view()),
            NfListObject::Chain(c) => NfListObjectView::Chain(c.deep_view()),
            NfListObject::Rule(r) => NfListObjectView::Rule(r.deep_view()),
        }
    }
}

impl DeepView for NfCmd {
    type V = NfCmdView;

    open spec fn deep_view(&self) -> NfCmdView {
        match self {
            NfCmd::Add(o) => NfCmdView::Add(o.deep_view()),
            NfCmd::Delete(o) => NfCmdView::Delete(o.deep_view()),
        }
    }
}

/// The NAT table of the IPv4 family.
pub open spec fn nat_table() -> TableView {
    TableView { family: NfFamily::IP, name: NAT_TABLE@ }
}

/// A chain of the NAT table with an accept policy.
pub open spec fn chain_spec(
    name: Seq<char>,
    chain_type: NfChainType,
    hook: NfHook,
    priority: i32,
) -> ChainView {
    ChainView {
        family: NfFamily::IP,
        table: NAT_TABLE@,
        name,
        chain_type: Some(chain_type),
        hook: Some(hook),
        prio: Some(priority),
        dev: None,
        policy: Some(NfChainPolicy::Accept),
    }
}

/// A rule of a chain of the NAT table.
pub open spec fn rule_spec(chain: Seq<char>, conditions: Seq<StatementView>) -> RuleView {
    RuleView { family: NfFamily::IP, table: NAT_TABLE@, chain, expr: conditions }
}

/// The rule that redirects what arrives on the interface `ifname` with the
/// transport protocol `proto` to the port `proxy_port` of this host.
pub open spec fn tproxy_spec(ifname: Seq<char>, proxy_port: u32, proto: Seq<char>) -> RuleView {
    rule_spec(
        PREROUTING_CHAIN@,
        seq![
            StatementView::Match {
                left: ExpressionView::MetaIifname,
                right: ExpressionView::String(ifname),
                op: Operator::EQ,
            },
            StatementView::Match {
                left: ExpressionView::PayloadField { protocol: "ip"@, field: "protocol"@ },
                right: ExpressionView::String(proto),
                op: Operator::EQ,
            },
            StatementView::Redirect { family: None, port: Some(proxy_port) },
        ],
    )
}

/// The rule that redirects DNS, that is what goes to port 53 over the
/// protocol `proto`, to the port `dns_port` of this host.
pub open spec fn dns_dnat_spec(dns_port: u32, proto: Seq<char>) -> RuleView {
    rule_spec(
        PREROUTING_CHAIN@,
        seq![
            StatementView::Match {
                left: ExpressionView::PayloadField { protocol: proto, field: "dport"@ },
                right: ExpressionView::Number(53),
                op: Operator::EQ,
            },
            StatementView::Redirect { family: Some(NatFamily::IP), port: Some(dns_port) },
        ],
    )
}

/// The prerouting chain of the ruleset.
pub open spec fn prerouting_chain() -> ChainView {
    chain_spec(PREROUTING_CHAIN@, NfChainType::NAT, NfHook::Prerouting, DNAT_PRIORITY)
}

/// The four rules of the ruleset of a container whose traffic arrives on
/// the interface `ifname`, in order: DNS over UDP and over TCP to the
/// proxy's DNS port, then everything that arrives on `ifname` over UDP and
/// over TCP to the proxy's transparent-proxy port.
pub open spec fn redirect_rules(ifname: Seq<char>) -> Seq<RuleView> {
    seq![
        dns_dnat_spec(TOR_DNS, "udp"@),
        dns_dnat_spec(TOR_DNS, "tcp"@),
        tproxy_spec(ifname, PROXY_PORT, "udp"@),
        tproxy_spec(ifname, PROXY_PORT, "tcp"@),
    ]
}

/// The ruleset of a container whose traffic arrives on the interface
/// `ifname`: one NAT table, its prerouting chain, and the four rules that
/// redirect DNS and all TCP and UDP traffic of that interface into the
/// proxy.
pub open spec fn ruleset_spec(ifname: Seq<char>) -> Seq<NfListObjectView> {
    seq![
        NfListObjectView::Table(nat_table()),
        NfListObjectView::Chain(prerouting_chain()),
        NfListObjectView::Rule(redirect_rules(ifname)[0]),
        NfListObjectView::Rule(redirect_rules(ifname)[1]),
        NfListObjectView::Rule(redirect_rules(ifname)[2]),
        NfListObjectView::Rule(redirect_rules(ifname)[3]),
    ]
}

/// Whether a rule lets a packet through to its redirect only if the
/// packet came in on the interface `ifname`: its first statement compares
/// the name of the input interface with `ifname` for equality.
pub open spec fn matches_interface(rule: RuleView, ifname: Seq<char>) -> bool {
    rule.expr.len() > 0 && rule.expr[0] == (StatementView::Match {
        left: ExpressionView::MetaIifname,
        right: ExpressionView::String(ifname),
        op: Operator::EQ,
    })
}

/// The redirect rules guard the container-facing interface. Both rules
/// that redirect to the proxy's transparent-proxy port match on the
/// interface that the ruleset was built for, one for UDP and one for TCP,
/// and end in the redirect to that port; both DNS rules end in the
/// redirect to the proxy's DNS port.
pub proof fn lemma_rules_match_interface(ifname: Seq<char>)
    ensures
        ({
            let rules = redirect_rules(ifname);
            &&& rules.len() == 4
            &&& matches_interface(rules[2], ifname)
            &&& matches_interface(rules[3], ifname)
            &&& rules[2].expr[1] == (StatementView::Match {
                left: ExpressionView::PayloadField { protocol: "ip"@, field: "protocol"@ },
                right: ExpressionView::String("udp"@),
                op: Operator::EQ,
            })
            &&& rules[3].expr[1] == (StatementView::Match {
                left: ExpressionView::PayloadField { protocol: "ip"@, field: "protocol"@ },
                right: ExpressionView::String("tcp"@),
                op: Operator::EQ,
            })
            &&& rules[2].expr.last() == (StatementView::Redirect {
                family: None,
                port: Some(PROXY_PORT),
            })
            &&& rules[3].expr.last() == rules[2].expr.last()
            &&& rules[0].expr.last() == (StatementView::Redirect {
                family: Some(NatFamily::IP),
                port: Some(TOR_DNS),
            })
            &&& rules[1].expr.last() == rules[0].expr.last()
            &&& forall|i: int| 0 <= i < 4 ==> (#[trigger] rules[i]).chain == PREROUTING_CHAIN@
                && rules[i].table == NAT_TABLE@ && rules[i].family == NfFamily::IP
        }),
{
}

/// The transaction that installs `objects` in place of whatever the table
/// `table` held before: the table is made sure to exist, deleted with all
/// it holds, and built anew.
pub open spec fn transaction(table: TableView, objects: Seq<NfListObjectView>) -> Seq<NfCmdView> {
    seq![
        NfCmdView::Add(NfListObjectView::Table(table)),
        NfCmdView::Delete(NfListObjectView::Table(table)),
    ] + objects.map_values(|o: NfListObjectView| NfCmdView::Add(o))
}

/// What the packet filter holds of one chain: its definition and its
/// rules, in order.
#[verifier::ext_equal]
pub struct ChainState {
    pub chain: ChainView,
    pub rules: Seq<RuleView>,
}

/// What the packet filter holds of one table: its chains, by name.
#[verifier::ext_equal]
pub struct TableState {
    pub chains: Map<Seq<char>, ChainState>,
}

/// What the packet filter holds: its tables, by family and name.
#[verifier::ext_equal]
pub struct Firewall {
    pub tables: Map<(NfFamily, Seq<char>), TableState>,
}

/// The effect of one command on the packet filter. Adding a table or a
/// chain that exists keeps it as it is; adding a rule appends it to its
/// chain; deleting a table removes it with all it holds. A command that
/// names a table or chain that is not there changes nothing.
pub open spec fn apply_cmd(fw: Firewall, cmd: NfCmdView) -> Firewall {
    match cmd {
        NfCmdView::Add(NfListObjectView::Table(t)) => {
            if fw.tables.contains_key((t.family, t.name)) {
                fw
            } else {
                Firewall {
                    tables: fw.tables.insert((t.family, t.name), TableState { chains: Map::empty() }),
                }
            }
        },
        NfCmdView::Add(NfListObjectView::Chain(c)) => {
            let key = (c.family, c.table);
            if fw.tables.contains_key(key) && !fw.tables[key].chains.contains_key(c.name) {
                Firewall {
                    tables: fw.tables.insert(
                        key,
                        TableState {
                            chains: fw.tables[key].chains.insert(
                                c.name,
                                ChainState { chain: c, rules: Seq::empty() },
                            ),
                        },
                    ),
                }
            } else {
                fw
            }
        },
        NfCmdView::Add(NfListObjectView::Rule(r)) => {
            let key = (r.family, r.table);
            if fw.tables.contains_key(key) && fw.tables[key].chains.contains_key(r.chain) {
                let held = fw.tables[key].chains[r.chain];
                Firewall {
                    tables: fw.tables.insert(
                        key,
                        TableState {
                            chains: fw.tables[key].chains.insert(
                                r.chain,
                                ChainState { chain: held.chain, rules: held.rules.push(r) },
                            ),
                        },
                    ),
                }
            } else {
                fw
            }
        },
        NfCmdView::Delete(NfListObjectView::Table(t)) => Firewall {
            tables: fw.tables.remove((t.family, t.name)),
        },
        NfCmdView::Delete(NfListObjectView::Chain(c)) => {
            let key = (c.family, c.table);
            if fw.tables.contains_key(key) {
                Firewall {
                    tables: fw.tables.insert(
                        key,
                        TableState { chains: fw.tables[key].chains.remove(c.name) },
                    ),
                }
            } else {
                fw
            }
        },
        NfCmdView::Delete(NfListObjectView::Rule(_)) => fw,
    }
}

/// The effect of the first `n` commands of `cmds`, in order.
pub open spec fn apply_first(fw: Firewall, cmds: Seq<NfCmdView>, n: nat) -> Firewall
    decreases n,
{
    if n == 0 {
        fw
    } else {
        apply_cmd(apply_first(fw, cmds, (n - 1) as nat), cmds[n - 1])
    }
}

/// The effect of a whole transaction.
pub open spec fn apply(fw: Firewall, cmds: Seq<NfCmdView>) -> Firewall {
    apply_first(fw, cmds, cmds.len())
}

/// The packet filter once the ruleset is in force: the NAT table holds
/// the prerouting chain with the four redirect rules and nothing else;
/// every other table is as it was.
pub open spec fn installed(fw: Firewall, ifname: Seq<char>) -> Firewall {
    Firewall {
        tables: fw.tables.insert(
            (NfFamily::IP, NAT_TABLE@),
            TableState {
                chains: Map::empty().insert(
                    PREROUTING_CHAIN@,
                    ChainState { chain: prerouting_chain(), rules: redirect_rules(ifname) },
                ),
            },
        ),
    }
}

/// Whatever the packet filter held and whatever the interface is called,
/// the transaction of `test_apply_ruleset` leaves the packet filter as
/// `installed` describes.
pub proof fn lemma_transaction_installs(fw: Firewall, ifname: Seq<char>)
    ensures
        apply(fw, transaction(nat_table(), ruleset_spec(ifname))) == installed(fw, ifname),
{
    let cmds = transaction(nat_table(), ruleset_spec(ifname));
    let key = (NfFamily::IP, NAT_TABLE@);
    let name = PREROUTING_CHAIN@;
    let rules = redirect_rules(ifname);
    assert(cmds.len() == 8);
    assert(cmds[0] == NfCmdView::Add(NfListObjectView::Table(nat_table())));
    assert(cmds[1] == NfCmdView::Delete(NfListObjectView::Table(nat_table())));
    assert(cmds[2] == NfCmdView::Add(ruleset_spec(ifname)[0]));
    assert(cmds[3] == NfCmdView::Add(ruleset_spec(ifname)[1]));
    assert(cmds[4] == NfCmdView::Add(ruleset_spec(ifname)[2]));
    assert(cmds[5] == NfCmdView::Add(ruleset_spec(ifname)[3]));
    assert(cmds[6] == NfCmdView::Add(ruleset_spec(ifname)[4]));
    assert(cmds[7] == NfCmdView::Add(ruleset_spec(ifname)[5]));
    let s0 = apply_first(fw, cmds, 0);
    let s1 = apply_first(fw, cmds, 1);
    let s2 = apply_first(fw, cmds, 2);
    let s3 = apply_first(fw, cmds, 3);
    let s4 = apply_first(fw, cmds, 4);
    let s5 = apply_first(fw, cmds, 5);
    let s6 = apply_first(fw, cmds, 6);
    let s7 = apply_first(fw, cmds, 7);
    let s8 = apply_first(fw, cmds, 8);
    assert(s0 == fw);
    assert(s1 == apply_cmd(s0, cmds[0]));
    assert(s2 == apply_cmd(s1, cmds[1]));
    assert(s3 == apply_cmd(s2, cmds[2]));
    assert(s4 == apply_cmd(s3, cmds[3]));
    assert(s5 == apply_cmd(s4, cmds[4]));
    assert(s6 == apply_cmd(s5, cmds[5]));
    assert(s7 == apply_cmd(s6, cmds[6]));
    assert(s8 == apply_cmd(s7, cmds[7]));
    let chain_with = |held: Seq<RuleView>|
        Firewall {
            tables: fw.tables.insert(
                key,
                TableState {
                    chains: Map::empty().insert(
                        name,
                        ChainState { chain: prerouting_chain(), rules: held },
                    ),
                },
            ),
        };
    assert(s2.tables =~= fw.tables.remove(key));
    assert(s3 =~~= Firewall {
        tables: fw.tables.insert(key, TableState { chains: Map::empty() }),
    });
    assert(s4 =~~= chain_with(Seq::empty()));
    assert(s5 =~~= chain_with(seq![rules[0]]));
    assert(s6 =~~= chain_with(seq![rules[0], rules[1]]));
    assert(s7 =~~= chain_with(seq![rules[0], rules[1], rules[2]]));
    assert(s8 =~~= chain_with(seq![rules[0], rules[1], rules[2], rules[3]]));
    assert(seq![rules[0], rules[1], rules[2], rules[3]] =~= rules);
    assert(s8 =~~= installed(fw, ifname));
}

/// Idempotence of the firewall. Whatever the container-facing interface
/// is called, applying the transaction twice in succession leaves what
/// applying it once leaves: exactly one NAT table with exactly one chain,
/// the prerouting chain, holding the same four rules once each. The
/// transaction replaces; it does not accumulate.
pub proof fn lemma_ruleset_idempotent(fw: Firewall, ifname: Seq<char>)
    ensures
        ({
            let cmds = transaction(nat_table(), ruleset_spec(ifname));
            let once = apply(fw, cmds);
            let twice = apply(once, cmds);
            let held = once.tables[(NfFamily::IP, NAT_TABLE@)];
            &&& twice == once
            &&& once.tables.contains_key((NfFamily::IP, NAT_TABLE@))
            &&& held.chains.dom() == set![PREROUTING_CHAIN@]
            &&& held.chains[PREROUTING_CHAIN@].chain == prerouting_chain()
            &&& held.chains[PREROUTING_CHAIN@].rules == redirect_rules(ifname)
            &&& redirect_rules(ifname).len() == 4
            &&& forall|key: (NfFamily, Seq<char>)|
                key != (NfFamily::IP, NAT_TABLE@) ==> (once.tables.contains_key(key)
                    == fw.tables.contains_key(key) && (fw.tables.contains_key(key)
                    ==> once.tables[key] == fw.tables[key]))
        }),
{
    let cmds = transaction(nat_table(), ruleset_spec(ifname));
    lemma_transaction_installs(fw, ifname);
    lemma_transaction_installs(installed(fw, ifname), ifname);
    assert(installed(installed(fw, ifname), ifname) =~~= installed(fw, ifname));
    let held = installed(fw, ifname).tables[(NfFamily::IP, NAT_TABLE@)];
    assert(held.chains.dom() =~= set![PREROUTING_CHAIN@]);
}

/// One chain as the packet filter holds it, with its rules in order.
#[derive(Clone, Debug, PartialEq, Eq)]
pub struct ChainEntry {
    pub chain: Chain,
    pub rules: Vec<Rule>,
}

/// One table as the packet filter holds it, with its chains.
#[derive(Clone, Debug, PartialEq, Eq)]
pub struct TableEntry {
    pub table: Table,
    pub chains: Vec<ChainEntry>,
}

impl ChainEntry {
    /// The name by which the chain is found in its table.
    pub open spec fn key(self) -> Seq<char> {
        self.chain.name@
    }

    /// What the packet filter holds of the chain.
    pub open spec fn state(self) -> ChainState {
        ChainState { chain: self.chain.deep_view(), rules: self.rules.deep_view() }
    }
}

/// Whether no two chains of the list have the same name.
pub open spec fn chains_unique(chains: Seq<ChainEntry>) -> bool {
    forall|i: int, j: int|
        0 <= i < chains.len() && 0 <= j < chains.len() && (#[trigger] chains[i]).key() == (
        #[trigger] chains[j]).key() ==> i == j
}

/// Whether the list holds a chain of this name.
pub open spec fn has_chain(chains: Seq<ChainEntry>, name: Seq<char>) -> bool {
    exists|i: int| 0 <= i < chains.len() && (#[trigger] chains[i]).key() == name
}

/// The chains of a list, by name.
pub open spec fn chains_view(chains: Seq<ChainEntry>) -> Map<Seq<char>, ChainState> {
    Map::new(
        |name: Seq<char>| has_chain(chains, name),
        |name: Seq<char>|
            chains[choose|i: int| 0 <= i < chains.len() && (#[trigger] chains[i]).key() == name].state(),
    )
}

impl TableEntry {
    /// The family and name by which the table is found.
    pub open spec fn key(self) -> (NfFamily, Seq<char>) {
        (self.table.family, self.table.name@)
    }

    /// What the packet filter holds of the table.
    pub open spec fn state(self) -> TableState {
        TableState { chains: chains_view(self.chains@) }
    }
}

/// Whether no two tables of the list have the same family and name, and
/// no table has two chains of the same name.
pub open spec fn tables_unique(tables: Seq<TableEntry>) -> bool {
    &&& forall|i: int, j: int|
        0 <= i < tables.len() && 0 <= j < tables.len() && (#[trigger] tables[i]).key() == (
        #[trigger] tables[j]).key() ==> i == j
    &&& forall|i: int| 0 <= i < tables.len() ==> chains_unique((#[trigger] tables[i]).chains@)
}

/// Whether the list holds a table of this family and name.
pub open spec fn has_table(tables: Seq<TableEntry>, key: (NfFamily, Seq<char>)) -> bool {
    exists|i: int| 0 <= i < tables.len() && (#[trigger] tables[i]).key() == key
}

/// The tables of a list, by family and name.
pub open spec fn tables_view(tables: Seq<TableEntry>) -> Map<(NfFamily, Seq<char>), TableState> {
    Map::new(
        |key: (NfFamily, Seq<char>)| has_table(tables, key),
        |key: (NfFamily, Seq<char>)|
            tables[choose|i: int| 0 <= i < tables.len() && (#[trigger] tables[i]).key() == key].state(),
    )
}

/// A packet filter in memory: what a packet filter holds after the
/// transactions applied to it. It serves to try a transaction out.
#[derive(Clone, Debug, PartialEq, Eq)]
pub struct PacketFilter {
    tables: Vec<TableEntry>,
}

impl View for PacketFilter {
    type V = Firewall;

    closed spec fn view(&self) -> Firewall {
        Firewall { tables: tables_view(self.tables@) }
    }
}

fn find_chain(chains: &Vec<ChainEntry>, name: &String) -> (r: Option<usize>)
    requires
        chains_unique(chains@),
    ensures
        match r {
            Some(i) => i < chains.len() && chains[i as int].key() == name@ && has_chain(
                chains@,
                name@,
            ) && chains_view(chains@)[name@] == chains[i as int].state(),
            None => !has_chain(chains@, name@),
        },
{
    let mut i: usize = 0;
    while i < chains.len()
        invariant
            i <= chains.len(),
            chains_unique(chains@),
            forall|k: int| 0 <= k < i ==> (#[trigger] chains[k]).key() != name@,
        decreases chains.len() - i,
    {
        if chains[i].chain.name == *name {
            proof {
                assert(chains@[i as int].key() == name@);
                let k = choose|k: int|
                    0 <= k < chains@.len() && (#[trigger] chains@[k]).key() == name@;
                assert(chains@[k].key() == chains@[i as int].key());
                assert(k == i);
            }
            return Some(i);
        }
        i += 1;
    }
    None
}

fn find_table(tables: &Vec<TableEntry>, family: NfFamily, name: &String) -> (r: Option<usize>)
    requires
        tables_unique(tables@),
    ensures
        match r {
            Some(i) => i < tables.len() && tables[i as int].key() == (family, name@) && has_table(
                tables@,
                (family, name@),
            ) && tables_view(tables@)[(family, name@)] == tables[i as int].state(),
            None => !has_table(tables@, (family, name@)),
        },
{
    let mut i: usize = 0;
    while i < tables.len()
        invariant
            i <= tables.len(),
            tables_unique(tables@),
            forall|k: int| 0 <= k < i ==> (#[trigger] tables[k]).key() != (family, name@),
        decreases tables.len() - i,
    {
        if tables[i].table.family == family && tables[i].table.name == *name {
            proof {
                assert(tables@[i as int].key() == (family, name@));
                let k = choose|k: int|
                    0 <= k < tables@.len() && (#[trigger] tables@[k]).key() == (family, name@);
                assert(tables@[k].key() == tables@[i as int].key());
                assert(k == i);
            }
            return Some(i);
        }
        i += 1;
    }
    None
}

/// A chain added to a list that has none of its name is one more chain by
/// name.
proof fn lemma_chain_pushed(chains: Seq<ChainEntry>, entry: ChainEntry)
    requires
        chains_unique(chains),
        !has_chain(chains, entry.key()),
    ensures
        chains_unique(chains.push(entry)),
        chains_view(chains.push(entry)) == chains_view(chains).insert(entry.key(), entry.state()),
{
    let grown = chains.push(entry);
    assert forall|name: Seq<char>| has_chain(grown, name) <==> (has_chain(chains, name) || name
        == entry.key()) by {
        if has_chain(grown, name) {
            let i = choose|i: int| 0 <= i < grown.len() && (#[trigger] grown[i]).key() == name;
            if i < chains.len() {
                assert(chains[i].key() == name);
            }
        }
        if has_chain(chains, name) {
            let i = choose|i: int| 0 <= i < chains.len() && (#[trigger] chains[i]).key() == name;
            assert(grown[i].key() == name);
        }
        if name == entry.key() {
            assert(grown[chains.len() as int].key() == name);
        }
    }
    assert forall|name: Seq<char>| has_chain(grown, name) implies #[trigger] chains_view(
        grown,
    )[name] == chains_view(chains).insert(entry.key(), entry.state())[name] by {
        let i = choose|i: int| 0 <= i < grown.len() && (#[trigger] grown[i]).key() == name;
        if name == entry.key() {
            if i < chains.len() {
                assert(chains[i].key() == name);
            }
        } else {
            let j = choose|j: int| 0 <= j < chains.len() && (#[trigger] chains[j]).key() == name;
            assert(grown[j].key() == name);
        }
    }
    assert(chains_view(grown) =~= chains_view(chains).insert(entry.key(), entry.state()));
}

/// A chain of a list replaced by one of the same name is that name's new
/// state.
proof fn lemma_chain_updated(chains: Seq<ChainEntry>, i: int, entry: ChainEntry)
    requires
        chains_unique(chains),
        0 <= i < chains.len(),
        entry.key() == chains[i].key(),
    ensures
        chains_unique(chains.update(i, entry)),
        chains_view(chains.update(i, entry)) == chains_view(chains).insert(
            entry.key(),
            entry.state(),
        ),
{
    let changed = chains.update(i, entry);
    assert forall|a: int, b: int|
        0 <= a < changed.len() && 0 <= b < changed.len() && (#[trigger] changed[a]).key() == (
        #[trigger] changed[b]).key() implies a == b by {
        assert(chains[a].key() == changed[a].key());
        assert(chains[b].key() == changed[b].key());
    }
    assert forall|name: Seq<char>| has_chain(changed, name) <==> has_chain(chains, name) by {
        if has_chain(changed, name) {
            let k = choose|k: int| 0 <= k < changed.len() && (#[trigger] changed[k]).key() == name;
            assert(chains[k].key() == name);
        }
        if has_chain(chains, name) {
            let k = choose|k: int| 0 <= k < chains.len() && (#[trigger] chains[k]).key() == name;
            assert(changed[k].key() == name);
        }
    }
    assert(has_chain(chains, entry.key())) by {
        assert(chains[i].key() == entry.key());
    }
    assert forall|name: Seq<char>| has_chain(changed, name) implies #[trigger] chains_view(
        changed,
    )[name] == chains_view(chains).insert(entry.key(), entry.state())[name] by {
        let k = choose|k: int| 0 <= k < changed.len() && (#[trigger] changed[k]).key() == name;
        assert(chains[k].key() == name);
        if name != entry.key() {
            let j = choose|j: int| 0 <= j < chains.len() && (#[trigger] chains[j]).key() == name;
            assert(changed[j].key() == name);
        } else {
            assert(changed[i].key() == name);
        }
    }
    assert(chains_view(changed) =~= chains_view(chains).insert(entry.key(), entry.state()));
}

/// A chain taken out of a list is gone by name.
proof fn lemma_chain_removed(chains: Seq<ChainEntry>, i: int)
    requires
        chains_unique(chains),
        0 <= i < chains.len(),
    ensures
        chains_unique(chains.remove(i)),
        chains_view(chains.remove(i)) == chains_view(chains).remove(chains[i].key()),
{
    let rest = chains.remove(i);
    let from = |k: int| if k < i { k } else { k + 1 };
    assert forall|k: int| 0 <= k < rest.len() implies #[trigger] rest[k] == chains[from(k)] by {}
    assert forall|a: int, b: int|
        0 <= a < rest.len() && 0 <= b < rest.len() && (#[trigger] rest[a]).key() == (
        #[trigger] rest[b]).key() implies a == b by {
        assert(chains[from(a)].key() == chains[from(b)].key());
    }
    assert forall|name: Seq<char>| has_chain(rest, name) <==> (has_chain(chains, name) && name
        != chains[i].key()) by {
        if has_chain(rest, name) {
            let k = choose|k: int| 0 <= k < rest.len() && (#[trigger] rest[k]).key() == name;
            assert(chains[from(k)].key() == name);
        }
        if has_chain(chains, name) && name != chains[i].key() {
            let k = choose|k: int| 0 <= k < chains.len() && (#[trigger] chains[k]).key() == name;
            let back = if k < i { k } else { k - 1 };
            assert(rest[back] == chains[from(back)]);
            assert(rest[back].key() == name);
        }
    }
    assert forall|name: Seq<char>| has_chain(rest, name) implies #[trigger] chains_view(rest)[name]
        == chains_view(chains).remove(chains[i].key())[name] by {
        let k = choose|k: int| 0 <= k < rest.len() && (#[trigger] rest[k]).key() == name;
        let j = choose|j: int| 0 <= j < chains.len() && (#[trigger] chains[j]).key() == name;
        assert(chains[from(k)].key() == name);
    }
    assert(chains_view(rest) =~= chains_view(chains).remove(chains[i].key()));
}

/// A table added to a list that has none of its family and name is one
/// more table by family and name.
proof fn lemma_table_pushed(tables: Seq<TableEntry>, entry: TableEntry)
    requires
        tables_unique(tables),
        chains_unique(entry.chains@),
        !has_table(tables, entry.key()),
    ensures
        tables_unique(tables.push(entry)),
        tables_view(tables.push(entry)) == tables_view(tables).insert(entry.key(), entry.state()),
{
    let grown = tables.push(entry);
    assert forall|key: (NfFamily, Seq<char>)| has_table(grown, key) <==> (has_table(tables, key)
        || key == entry.key()) by {
        if has_table(grown, key) {
            let i = choose|i: int| 0 <= i < grown.len() && (#[trigger] grown[i]).key() == key;
            if i < tables.len() {
                assert(tables[i].key() == key);
            }
        }
        if has_table(tables, key) {
            let i = choose|i: int| 0 <= i < tables.len() && (#[trigger] tables[i]).key() == key;
            assert(grown[i].key() == key);
        }
        if key == entry.key() {
            assert(grown[tables.len() as int].key() == key);
        }
    }
    assert forall|a: int, b: int|
        0 <= a < grown.len() && 0 <= b < grown.len() && (#[trigger] grown[a]).key() == (
        #[trigger] grown[b]).key() implies a == b by {
        if a < tables.len() {
            assert(tables[a].key() == grown[a].key());
        }
        if b < tables.len() {
            assert(tables[b].key() == grown[b].key());
        }
    }
    assert forall|key: (NfFamily, Seq<char>)| has_table(grown, key) implies #[trigger] tables_view(
        grown,
    )[key] == tables_view(tables).insert(entry.key(), entry.state())[key] by {
        let i = choose|i: int| 0 <= i < grown.len() && (#[trigger] grown[i]).key() == key;
        if key == entry.key() {
            if i < tables.len() {
                assert(tables[i].key() == key);
            }
        } else {
            let j = choose|j: int| 0 <= j < tables.len() && (#[trigger] tables[j]).key() == key;
            assert(grown[j].key() == key);
        }
    }
    assert(tables_view(grown) =~= tables_view(tables).insert(entry.key(), entry.state()));
}

/// A table of a list replaced by one of the same family and name is that
/// name's new state.
proof fn lemma_table_updated(tables: Seq<TableEntry>, i: int, entry: TableEntry)
    requires
        tables_unique(tables),
        chains_unique(entry.chains@),
        0 <= i < tables.len(),
        entry.key() == tables[i].key(),
    ensures
        tables_unique(tables.update(i, entry)),
        tables_view(tables.update(i, entry)) == tables_view(tables).insert(
            entry.key(),
            entry.state(),
        ),
{
    let changed = tables.update(i, entry);
    assert forall|a: int, b: int|
        0 <= a < changed.len() && 0 <= b < changed.len() && (#[trigger] changed[a]).key() == (
        #[trigger] changed[b]).key() implies a == b by {
        assert(tables[a].key() == changed[a].key());
        assert(tables[b].key() == changed[b].key());
    }
    assert forall|a: int| 0 <= a < changed.len() implies chains_unique(
        (#[trigger] changed[a]).chains@,
    ) by {
        if a != i {
            assert(changed[a] == tables[a]);
        }
    }
    assert forall|key: (NfFamily, Seq<char>)| has_table(changed, key) <==> has_table(
        tables,
        key,
    ) by {
        if has_table(changed, key) {
            let k = choose|k: int| 0 <= k < changed.len() && (#[trigger] changed[k]).key() == key;
            assert(tables[k].key() == key);
        }
        if has_table(tables, key) {
            let k = choose|k: int| 0 <= k < tables.len() && (#[trigger] tables[k]).key() == key;
            assert(changed[k].key() == key);
        }
    }
    assert(has_table(tables, entry.key())) by {
        assert(tables[i].key() == entry.key());
    }
    assert forall|key: (NfFamily, Seq<char>)| has_table(changed, key) implies #[trigger] tables_view(
        changed,
    )[key] == tables_view(tables).insert(entry.key(), entry.state())[key] by {
        let k = choose|k: int| 0 <= k < changed.len() && (#[trigger] changed[k]).key() == key;
        assert(tables[k].key() == key);
        if key != entry.key() {
            let j = choose|j: int| 0 <= j < tables.len() && (#[trigger] tables[j]).key() == key;
            assert(changed[j].key() == key);
        } else {
            assert(changed[i].key() == key);
        }
    }
    assert(tables_view(changed) =~= tables_view(tables).insert(entry.key(), entry.state()));
}

/// A table taken out of a list is gone by family and name.
proof fn lemma_table_removed(tables: Seq<TableEntry>, i: int)
    requires
        tables_unique(tables),
        0 <= i < tables.len(),
    ensures
        tables_unique(tables.remove(i)),
        tables_view(tables.remove(i)) == tables_view(tables).remove(tables[i].key()),
{
    let rest = tables.remove(i);
    let from = |k: int| if k < i { k } else { k + 1 };
    assert forall|k: int| 0 <= k < rest.len() implies #[trigger] rest[k] == tables[from(k)] by {}
    assert forall|a: int, b: int|
        0 <= a < rest.len() && 0 <= b < rest.len() && (#[trigger] rest[a]).key() == (
        #[trigger] rest[b]).key() implies a == b by {
        assert(tables[from(a)].key() == tables[from(b)].key());
    }
    assert forall|a: int| 0 <= a < rest.len() implies chains_unique((#[trigger] rest[a]).chains@) by {
        assert(rest[a] == tables[from(a)]);
    }
    assert forall|key: (NfFamily, Seq<char>)| has_table(rest, key) <==> (has_table(tables, key)
        && key != tables[i].key()) by {
        if has_table(rest, key) {
            let k = choose|k: int| 0 <= k < rest.len() && (#[trigger] rest[k]).key() == key;
            assert(tables[from(k)].key() == key);
        }
        if has_table(tables, key) && key != tables[i].key() {
            let k = choose|k: int| 0 <= k < tables.len() && (#[trigger] tables[k]).key() == key;
            let back = if k < i { k } else { k - 1 };
            assert(rest[back] == tables[from(back)]);
            assert(rest[back].key() == key);
        }
    }
    assert forall|key: (NfFamily, Seq<char>)| has_table(rest, key) implies #[trigger] tables_view(
        rest,
    )[key] == tables_view(tables).remove(tables[i].key())[key] by {
        let k = choose|k: int| 0 <= k < rest.len() && (#[trigger] rest[k]).key() == key;
        let j = choose|j: int| 0 <= j < tables.len() && (#[trigger] tables[j]).key() == key;
        assert(tables[from(k)].key() == key);
    }
    assert(tables_view(rest) =~= tables_view(tables).remove(tables[i].key()));
}

impl PacketFilter {
    /// Whether no two tables have the same family and name, and no table
    /// two chains of the same name.
    pub closed spec fn wf(&self) -> bool {
        tables_unique(self.tables@)
    }

    /// A packet filter that holds nothing.
    pub fn new() -> (filter: PacketFilter)
        ensures
            filter.wf(),
            filter@ == (Firewall { tables: Map::empty() }),
    {
        let filter = PacketFilter { tables: Vec::new() };
        assert(filter@.tables =~= Map::empty());
        filter
    }

    /// The tables that the packet filter holds.
    pub fn tables(&self) -> (tables: &Vec<TableEntry>)
        requires
            self.wf(),
        ensures
            tables_unique(tables@),
            tables_view(tables@) == self@.tables,
    {
        &self.tables
    }

    /// Applies one command.
    pub fn apply_cmd(&mut self, cmd: NfCmd)
        requires
            old(self).wf(),
        ensures
            final(self).wf(),
            final(self)@ == apply_cmd(old(self)@, cmd.deep_view()),
    {
        let ghost before = self.tables@;
        match cmd {
            NfCmd::Add(NfListObject::Table(table)) => {
                if find_table(&self.tables, table.family, &table.name).is_none() {
                    let entry = TableEntry { table, chains: Vec::new() };
                    proof {
                        assert(entry.state().chains =~= Map::empty());
                        lemma_table_pushed(before, entry);
                    }
                    self.tables.push(entry);
                }
            },
            NfCmd::Delete(NfListObject::Table(table)) => {
                match find_table(&self.tables, table.family, &table.name) {
                    Some(i) => {
                        proof {
                            lemma_table_removed(before, i as int);
                        }
                        let _ = self.tables.remove(i);
                    },
                    None => {
                        assert(tables_view(before).remove((table.family, table.name@))
                            =~= tables_view(before));
                    },
                }
            },
            NfCmd::Add(NfListObject::Chain(chain)) => {
                match find_table(&self.tables, chain.family, &chain.table) {
                    Some(i) => {
                        if find_chain(&self.tables[i].chains, &chain.name).is_none() {
                            let mut entry = self.tables.remove(i);
                            let ghost held = entry.chains@;
                            let added = ChainEntry { chain, rules: Vec::new() };
                            proof {
                                assert(added.state().rules =~= Seq::empty());
                                lemma_chain_pushed(held, added);
                            }
                            entry.chains.push(added);
                            proof {
                                lemma_table_updated(before, i as int, entry);
                                assert(before.remove(i as int).insert(i as int, entry)
                                    =~= before.update(i as int, entry));
                            }
                            self.tables.insert(i, entry);
                        }
                    },
                    None => {},
                }
            },
            NfCmd::Add(NfListObject::Rule(rule)) => {
                match find_table(&self.tables, rule.family, &rule.table) {
                    Some(i) => {
                        match find_chain(&self.tables[i].chains, &rule.chain) {
                            Some(j) => {
                                let mut entry = self.tables.remove(i);
                                let ghost held = entry.chains@;
                                let mut chain = entry.chains.remove(j);
                                let ghost rules = chain.rules.deep_view();
                                chain.rules.push(rule);
                                proof {
                                    assert(chain.rules.deep_view() =~= rules.push(rule.deep_view()));
                                    lemma_chain_updated(held, j as int, chain);
                                    assert(held.remove(j as int).insert(j as int, chain)
                                        =~= held.update(j as int, chain));
                                }
                                entry.chains.insert(j, chain);
                                proof {
                                    lemma_table_updated(before, i as int, entry);
                                    assert(before.remove(i as int).insert(i as int, entry)
                                        =~= before.update(i as int, entry));
                                }
                                self.tables.insert(i, entry);
                            },
                            None => {},
                        }
                    },
                    None => {},
                }
            },
            NfCmd::Delete(NfListObject::Chain(chain)) => {
                match find_table(&self.tables, chain.family, &chain.table) {
                    Some(i) => {
                        let mut entry = self.tables.remove(i);
                        let ghost held = entry.chains@;
                        match find_chain(&entry.chains, &chain.name) {
                            Some(j) => {
                                proof {
                                    lemma_chain_removed(held, j as int);
                                }
                                let _ = entry.chains.remove(j);
                            },
                            None => {
                                assert(chains_view(held).remove(chain.name@) =~= chains_view(held));
                            },
                        }
                        proof {
                            lemma_table_updated(before, i as int, entry);
                            assert(before.remove(i as int).insert(i as int, entry) =~= before.update(
                                i as int,
                                entry,
                            ));
                        }
                        self.tables.insert(i, entry);
                    },
                    None => {},
                }
            },
            NfCmd::Delete(NfListObject::Rule(_)) => {},
        }
    }

    /// Applies a transaction: its commands, in order.
    pub fn apply(&mut self, cmds: Vec<NfCmd>)
        requires
            old(self).wf(),
        ensures
            final(self).wf(),
            final(self)@ == apply(old(self)@, cmds.deep_view()),
    {
        let ghost all = cmds.deep_view();
        let mut cmds = cmds;
        let n = cmds.len();
        let mut done: usize = 0;
        while done < n
            invariant
                done <= n,
                all.len() == n,
                cmds.len() == n - done,
                cmds.deep_view() == all.skip(done as int),
                self.wf(),
                self@ == apply_first(old(self)@, all, done as nat),
            decreases n - done,
        {
            let ghost rest = cmds@;
            let cmd = cmds.remove(0);
            proof {
                assert(cmd.deep_view() == rest.map_values(|c: NfCmd| c.deep_view())[0]);
                assert(cmd.deep_view() == all[done as int]) by {
                    assert(all.skip(done as int)[0] == all[done as int]);
                }
                assert forall|k: int| 0 <= k < cmds@.len() implies #[trigger] cmds@[k] == rest[k
                    + 1] by {}
                assert forall|k: int| 0 <= k < cmds@.len() implies #[trigger] cmds.deep_view()[k]
                    == all.skip(done as int + 1)[k] by {
                    assert(cmds@[k] == rest[k + 1]);
                    assert(all.skip(done as int)[k + 1] == rest[k + 1].deep_view());
                }
                assert(cmds.deep_view() =~= all.skip(done as int + 1));
            }
            self.apply_cmd(cmd);
            done += 1;
        }
    }
}

fn nat_table_object() -> (table: Table)
    ensures
        table.deep_view() == nat_table(),
{
    Table { family: NfFamily::IP, name: String::from_str(NAT_TABLE) }
}

/// Creates a chain of the NAT table with an accept policy.
pub fn create_chain(name: &str, chain_type: NfChainType, hook: NfHook, priority: i32) -> (object:
    NfListObject)
    ensures
        object.deep_view() == NfListObjectView::Chain(
            chain_spec(name@, chain_type, hook, priority),
        ),
{
    NfListObject::Chain(
        Chain {
            family: NfFamily::IP,
            table: String::from_str(NAT_TABLE),
            name: String::from_str(name),
            chain_type: Some(chain_type),
            hook: Some(hook),
            prio: Some(priority),
            dev: None,
            policy: Some(NfChainPolicy::Accept),
        },
    )
}

/// Creates a rule of a chain of the NAT table, the only table that rules
/// are added to.
pub fn create_rule(chain: &str, conditions: Vec<Statement>) -> (object: NfListObject)
    ensures
        object.deep_view() == NfListObjectView::Rule(rule_spec(chain@, conditions.deep_view())),
{
    NfListObject::Rule(
        Rule {
            family: NfFamily::IP,
            table: String::from_str(NAT_TABLE),
            chain: String::from_str(chain),
            expr: conditions,
        },
    )
}

/// The rule that redirects what arrives on `ifname` over `proto` to the
/// proxy's port.
pub fn tproxy(ifname: &str, proxy_port: u32, proto: &str) -> (object: NfListObject)
    ensures
        object.deep_view() == NfListObjectView::Rule(tproxy_spec(ifname@, proxy_port, proto@)),
{
    let mut conditions: Vec<Statement> = Vec::new();
    // Condition: the packet came in on `ifname`.
    conditions.push(
        Statement::Match {
            left: Expression::MetaIifname,
            right: Expression::String(String::from_str(ifname)),
            op: Operator::EQ,
        },
    );
    conditions.push(
        Statement::Match {
            left: Expression::PayloadField {
                protocol: String::from_str("ip"),
                field: String::from_str("protocol"),
            },
            right: Expression::String(String::from_str(proto)),
            op: Operator::EQ,
        },
    );
    // Then redirect everything to `proxy_port`.
    conditions.push(Statement::Redirect { family: None, port: Some(proxy_port) });
    assert(conditions.deep_view() =~= tproxy_spec(ifname@, proxy_port, proto@).expr);
    create_rule(PREROUTING_CHAIN, conditions)
}

/// The rule that redirects DNS over `proto` to the proxy's DNS port.
pub fn dns_dnat(dns_port: u32, proto: &str) -> (object: NfListObject)
    ensures
        object.deep_view() == NfListObjectView::Rule(dns_dnat_spec(dns_port, proto@)),
{
    let mut conditions: Vec<Statement> = Vec::new();
    // Condition: the destination port is 53.
    conditions.push(
        Statement::Match {
            left: Expression::PayloadField {
                protocol: String::from_str(proto),
                field: String::from_str("dport"),
            },
            right: Expression::Number(53),
            op: Operator::EQ,
        },
    );
    // Then redirect to `dns_port`.
    conditions.push(Statement::Redirect { family: Some(NatFamily::IP), port: Some(dns_port) });
    assert(conditions.deep_view() =~= dns_dnat_spec(dns_port, proto@).expr);
    create_rule(PREROUTING_CHAIN, conditions)
}

/// Builds the ruleset of a container whose traffic arrives on the
/// interface `ifname`.
pub fn example_ruleset(ifname: &str) -> (objects: Vec<NfListObject>)
    ensures
        objects.deep_view() == ruleset_spec(ifname@),
{
    let mut batch: Vec<NfListObject> = Vec::new();
    batch.push(NfListObject::Table(nat_table_object()));
    batch.push(
        create_chain(PREROUTING_CHAIN, NfChainType::NAT, NfHook::Prerouting, DNAT_PRIORITY),
    );
    batch.push(dns_dnat(TOR_DNS, "udp"));
    batch.push(dns_dnat(TOR_DNS, "tcp"));
    batch.push(tproxy(ifname, PROXY_PORT, "udp"));
    batch.push(tproxy(ifname, PROXY_PORT, "tcp"));
    assert(batch.deep_view() =~= ruleset_spec(ifname@));
    batch
}

/// Builds the transaction that puts the ruleset in force for a container
/// whose traffic arrives on the interface `ifname`. It is applied as a
/// whole from inside the container's network namespace, so that it governs
/// the container's traffic only.
pub fn test_apply_ruleset(ifname: &str) -> (commands: Vec<NfCmd>)
    ensures
        commands.deep_view() == transaction(nat_table(), ruleset_spec(ifname@)),
{
    let mut commands: Vec<NfCmd> = Vec::new();
    commands.push(NfCmd::Add(NfListObject::Table(nat_table_object())));
    commands.push(NfCmd::Delete(NfListObject::Table(nat_table_object())));
    let ghost head = commands.deep_view();
    let mut ruleset = example_ruleset(ifname);
    let ghost objects = ruleset.deep_view();
    let n = ruleset.len();
    let mut rest: Vec<NfListObject> = Vec::new();
    // Take the objects out back to front, then add them front to back.
    while ruleset.len() > 0
        invariant
            ruleset.len() <= n,
            rest.len() == n - ruleset.len(),
            objects.len() == n,
            ruleset.deep_view() =~= objects.take(ruleset.len() as int),
            forall|k: int|
                0 <= k < rest.len() ==> (#[trigger] rest[k]).deep_view() == objects[n - 1 - k],
        decreases ruleset.len(),
    {
        let ghost before = ruleset.deep_view();
        let object = ruleset.pop().unwrap();
        assert(object.deep_view() == before[before.len() - 1]);
        rest.push(object);
    }
    while rest.len() > 0
        invariant
            rest.len() <= n,
            objects.len() == n,
            forall|k: int|
                0 <= k < rest.len() ==> (#[trigger] rest[k]).deep_view() == objects[n - 1 - k],
            commands.deep_view() =~= head + objects.take(n - rest.len()).map_values(
                |o: NfListObjectView| NfCmdView::Add(o),
            ),
        decreases rest.len(),
    {
        let ghost done = n - rest.len();
        let ghost before = commands.deep_view();
        let object = rest.pop().unwrap();
        assert(object.deep_view() == objects[done]);
        commands.push(NfCmd::Add(object));
        proof {
            let wrap = |o: NfListObjectView| NfCmdView::Add(o);
            assert(commands.deep_view() =~= before.push(NfCmdView::Add(objects[done])));
            assert(objects.take(done + 1).map_values(wrap) =~= objects.take(done).map_values(
                wrap,
            ).push(wrap(objects[done])));
        }
    }
    assert(objects.take(n as int) =~= objects);
    commands
}

} // verus!
