use orjail::nftables::{
    create_chain, create_rule, dns_dnat, example_ruleset, test_apply_ruleset, tproxy, Chain,
    Expression, NatFamily, NfChainPolicy, NfChainType, NfCmd, NfFamily, NfHook, NfListObject,
    Operator, PacketFilter, Rule, Statement, Table, DNAT_PRIORITY, NAT_TABLE,
    PREROUTING_CHAIN, PROXY_PORT, TOR_DNS,
};

fn nat_table() -> NfListObject {
    NfListObject::Table(Table { family: NfFamily::IP, name: "nat".to_string() })
}

fn prerouting() -> NfListObject {
    NfListObject::Chain(Chain {
        family: NfFamily::IP,
        table: "nat".to_string(),
        name: "PREROUTING".to_string(),
        chain_type: Some(NfChainType::NAT),
        hook: Some(NfHook::Prerouting),
        prio: Some(-100),
        dev: None,
        policy: Some(NfChainPolicy::Accept),
    })
}

fn dns_rule(proto: &str) -> NfListObject {
    NfListObject::Rule(Rule {
        family: NfFamily::IP,
        table: "nat".to_string(),
        chain: "PREROUTING".to_string(),
        expr: vec![
            Statement::Match {
                left: Expression::PayloadField {
                    protocol: proto.to_string(),
                    field: "dport".to_string(),
                },
                right: Expression::Number(53),
                op: Operator::EQ,
            },
            Statement::Redirect { family: Some(NatFamily::IP), port: Some(5353) },
        ],
    })
}

fn proxy_rule(proto: &str) -> NfListObject {
    proxy_rule_on("test", proto)
}

fn proxy_rule_on(ifname: &str, proto: &str) -> NfListObject {
    NfListObject::Rule(Rule {
        family: NfFamily::IP,
        table: "nat".to_string(),
        chain: "PREROUTING".to_string(),
        expr: vec![
            Statement::Match {
                left: Expression::MetaIifname,
                right: Expression::String(ifname.to_string()),
                op: Operator::EQ,
            },
            Statement::Match {
                left: Expression::PayloadField {
                    protocol: "ip".to_string(),
                    field: "protocol".to_string(),
                },
                right: Expression::String(proto.to_string()),
                op: Operator::EQ,
            },
            Statement::Redirect { family: None, port: Some(9050) },
        ],
    })
}

#[test]
fn constants_of_the_ruleset() {
    assert_eq!(PREROUTING_CHAIN, "PREROUTING");
    assert_eq!(DNAT_PRIORITY, -100);
    assert_eq!(NAT_TABLE, "nat");
    assert_eq!(TOR_DNS, 5353);
    assert_eq!(PROXY_PORT, 9050);
}

#[test]
fn chain_has_accept_policy_in_the_nat_table() {
    assert_eq!(
        create_chain("PREROUTING", NfChainType::NAT, NfHook::Prerouting, -100),
        prerouting()
    );
    let other = create_chain("OUT", NfChainType::Filter, NfHook::Output, 10);
    match other {
        NfListObject::Chain(chain) => {
            assert_eq!(chain.table, "nat");
            assert_eq!(chain.name, "OUT");
            assert_eq!(chain.chain_type, Some(NfChainType::Filter));
            assert_eq!(chain.hook, Some(NfHook::Output));
            assert_eq!(chain.prio, Some(10));
            assert_eq!(chain.dev, None);
            assert_eq!(chain.policy, Some(NfChainPolicy::Accept));
        }
        _ => panic!("not a chain"),
    }
}

#[test]
fn rule_goes_to_the_nat_table() {
    let conditions = vec![Statement::Redirect { family: None, port: Some(1) }];
    assert_eq!(
        create_rule("X", conditions.clone()),
        NfListObject::Rule(Rule {
            family: NfFamily::IP,
            table: "nat".to_string(),
            chain: "X".to_string(),
            expr: conditions,
        })
    );
}

#[test]
fn redirect_rules() {
    assert_eq!(dns_dnat(5353, "udp"), dns_rule("udp"));
    assert_eq!(dns_dnat(5353, "tcp"), dns_rule("tcp"));
    assert_eq!(tproxy("test", 9050, "udp"), proxy_rule("udp"));
    assert_eq!(tproxy("test", 9050, "tcp"), proxy_rule("tcp"));
}

#[test]
fn ruleset_is_one_table_one_chain_four_rules() {
    assert_eq!(
        example_ruleset("test"),
        vec![
            nat_table(),
            prerouting(),
            dns_rule("udp"),
            dns_rule("tcp"),
            proxy_rule("udp"),
            proxy_rule("tcp"),
        ]
    );
}

#[test]
fn transaction_replaces_the_table() {
    let commands = test_apply_ruleset("test");
    let mut expected = vec![NfCmd::Add(nat_table()), NfCmd::Delete(nat_table())];
    for object in example_ruleset("test") {
        expected.push(NfCmd::Add(object));
    }
    assert_eq!(commands, expected);
    assert_eq!(commands.len(), 8);
}

#[test]
fn transaction_is_the_same_each_time() {
    assert_eq!(test_apply_ruleset("test"), test_apply_ruleset("test"));
    let commands = test_apply_ruleset("test");
    let tables = commands
        .iter()
        .filter(|c| matches!(c, NfCmd::Add(NfListObject::Table(_))))
        .count();
    let deletes = commands.iter().filter(|c| matches!(c, NfCmd::Delete(_))).count();
    let chains = commands
        .iter()
        .filter(|c| matches!(c, NfCmd::Add(NfListObject::Chain(_))))
        .count();
    let rules = commands
        .iter()
        .filter(|c| matches!(c, NfCmd::Add(NfListObject::Rule(_))))
        .count();
    assert_eq!((tables, deletes, chains, rules), (2, 1, 1, 4));
    assert!(matches!(commands[1], NfCmd::Delete(NfListObject::Table(_))));
    for command in &commands[2..] {
        assert!(matches!(command, NfCmd::Add(_)));
    }
}

fn rules_of(object: NfListObject) -> Rule {
    match object {
        NfListObject::Rule(rule) => rule,
        _ => panic!("not a rule"),
    }
}

fn four_rules() -> Vec<Rule> {
    vec![
        rules_of(dns_rule("udp")),
        rules_of(dns_rule("tcp")),
        rules_of(proxy_rule("udp")),
        rules_of(proxy_rule("tcp")),
    ]
}

#[test]
fn a_new_packet_filter_holds_nothing() {
    assert!(PacketFilter::new().tables().is_empty());
}

#[test]
fn the_transaction_installs_one_table_one_chain_four_rules() {
    let mut filter = PacketFilter::new();
    filter.apply(test_apply_ruleset("test"));
    let tables = filter.tables();
    assert_eq!(tables.len(), 1);
    assert_eq!(tables[0].table, Table { family: NfFamily::IP, name: "nat".to_string() });
    assert_eq!(tables[0].chains.len(), 1);
    assert_eq!(NfListObject::Chain(tables[0].chains[0].chain.clone()), prerouting());
    assert_eq!(tables[0].chains[0].rules, four_rules());
}

#[test]
fn applying_the_transaction_twice_changes_nothing() {
    let mut filter = PacketFilter::new();
    filter.apply(test_apply_ruleset("test"));
    let once = filter.clone();
    filter.apply(test_apply_ruleset("test"));
    assert_eq!(filter, once);
    filter.apply(test_apply_ruleset("test"));
    assert_eq!(filter, once);
    assert_eq!(filter.tables()[0].chains[0].rules.len(), 4);
}

#[test]
fn the_transaction_replaces_what_the_table_held() {
    let mut filter = PacketFilter::new();
    filter.apply(vec![
        NfCmd::Add(nat_table()),
        NfCmd::Add(create_chain("OLD", NfChainType::NAT, NfHook::Output, 0)),
        NfCmd::Add(create_rule("OLD", vec![Statement::Redirect { family: None, port: Some(1) }])),
        NfCmd::Add(prerouting()),
        NfCmd::Add(proxy_rule("udp")),
    ]);
    assert_eq!(filter.tables()[0].chains.len(), 2);
    filter.apply(test_apply_ruleset("test"));
    let mut fresh = PacketFilter::new();
    fresh.apply(test_apply_ruleset("test"));
    assert_eq!(filter, fresh);
}

#[test]
fn the_transaction_leaves_other_tables_alone() {
    let other = NfListObject::Table(Table { family: NfFamily::INet, name: "filter".to_string() });
    let same_name = NfListObject::Table(Table { family: NfFamily::IP6, name: "nat".to_string() });
    let mut filter = PacketFilter::new();
    filter.apply(vec![NfCmd::Add(other.clone()), NfCmd::Add(same_name.clone())]);
    let before = filter.tables().clone();
    filter.apply(test_apply_ruleset("test"));
    let tables = filter.tables();
    assert_eq!(tables.len(), 3);
    assert_eq!(tables[0], before[0]);
    assert_eq!(tables[1], before[1]);
    assert_eq!(tables[2].table, Table { family: NfFamily::IP, name: "nat".to_string() });
    filter.apply(test_apply_ruleset("test"));
    assert_eq!(filter.tables().len(), 3);
    assert_eq!(filter.tables()[2].chains[0].rules, four_rules());
}

#[test]
fn adding_alone_would_accumulate() {
    let adds = || -> Vec<NfCmd> { example_ruleset("test").into_iter().map(NfCmd::Add).collect() };
    let mut filter = PacketFilter::new();
    filter.apply(adds());
    assert_eq!(filter.tables()[0].chains[0].rules.len(), 4);
    filter.apply(adds());
    assert_eq!(filter.tables().len(), 1);
    assert_eq!(filter.tables()[0].chains.len(), 1);
    assert_eq!(filter.tables()[0].chains[0].rules.len(), 8);
}

#[test]
fn commands_on_what_is_not_there_change_nothing() {
    let mut filter = PacketFilter::new();
    filter.apply(vec![
        NfCmd::Add(prerouting()),
        NfCmd::Add(proxy_rule("udp")),
        NfCmd::Delete(nat_table()),
        NfCmd::Delete(prerouting()),
        NfCmd::Delete(proxy_rule("udp")),
    ]);
    assert_eq!(filter, PacketFilter::new());
    filter.apply(vec![NfCmd::Add(nat_table()), NfCmd::Add(proxy_rule("udp"))]);
    assert!(filter.tables()[0].chains.is_empty());
    filter.apply(vec![NfCmd::Add(prerouting()), NfCmd::Add(prerouting()), NfCmd::Add(nat_table())]);
    assert_eq!(filter.tables().len(), 1);
    assert_eq!(filter.tables()[0].chains.len(), 1);
    filter.apply_cmd(NfCmd::Delete(prerouting()));
    assert!(filter.tables()[0].chains.is_empty());
}

#[test]
fn the_ruleset_matches_the_interface_it_is_built_for() {
    for ifname in ["test", "jail", "orjail0", ""] {
        assert_eq!(
            example_ruleset(ifname),
            vec![
                nat_table(),
                prerouting(),
                dns_rule("udp"),
                dns_rule("tcp"),
                proxy_rule_on(ifname, "udp"),
                proxy_rule_on(ifname, "tcp"),
            ]
        );
        let commands = test_apply_ruleset(ifname);
        assert_eq!(commands.len(), 8);
        assert_eq!(commands[6], NfCmd::Add(proxy_rule_on(ifname, "udp")));
        assert_eq!(commands[7], NfCmd::Add(proxy_rule_on(ifname, "tcp")));
    }
    assert_ne!(example_ruleset("jail"), example_ruleset("test"));
}

#[test]
fn applying_twice_changes_nothing_whatever_the_interface() {
    for ifname in ["jail", "a", "veth-with-a-long-name"] {
        let mut filter = PacketFilter::new();
        filter.apply(test_apply_ruleset("test"));
        filter.apply(test_apply_ruleset(ifname));
        let once = filter.clone();
        filter.apply(test_apply_ruleset(ifname));
        assert_eq!(filter, once);
        let rules = &filter.tables()[0].chains[0].rules;
        assert_eq!(rules.len(), 4);
        assert_eq!(NfListObject::Rule(rules[2].clone()), proxy_rule_on(ifname, "udp"));
        assert_eq!(NfListObject::Rule(rules[3].clone()), proxy_rule_on(ifname, "tcp"));
    }
}
