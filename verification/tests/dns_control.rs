use firezone_client::dns_control::commands::{deactivate_command, flush_command};
use firezone_client::dns_control::nrpt::{
    dns_config_string, nrpt_rule, RegistryValue, FZ_MAGIC, NRPT_REG_KEY,
};
use firezone_client::dns_control::resolvers::{is_plausible, system_resolvers};
use firezone_client::dns_control::text::{join_texts, push_text};
use firezone_client::ip_addr::IpAddr;

fn v4(a: u8, b: u8, c: u8, d: u8) -> IpAddr {
    IpAddr::V4([a, b, c, d])
}

fn v6(first: u8, second: u8, last: u8) -> IpAddr {
    let mut octets = [0u8; 16];
    octets[0] = first;
    octets[1] = second;
    octets[15] = last;
    IpAddr::V6(octets)
}

fn strings(parts: &[&str]) -> Vec<String> {
    parts.iter().map(|s| s.to_string()).collect()
}

#[test]
fn site_local_ipv6_resolvers_are_dropped() {
    let adapters = vec![
        vec![v4(192, 168, 1, 1), v6(0xfe, 0xc0, 1)],
        vec![],
        vec![v6(0xfe, 0xc0, 2), v6(0x20, 0x01, 3), v4(1, 1, 1, 1)],
    ];
    assert_eq!(
        system_resolvers(&adapters),
        vec![v4(192, 168, 1, 1), v6(0x20, 0x01, 3), v4(1, 1, 1, 1)]
    );
}

#[test]
fn resolvers_keep_adapter_order_and_duplicates() {
    let adapters = vec![vec![v4(8, 8, 8, 8)], vec![v4(1, 1, 1, 1), v4(8, 8, 8, 8)]];
    assert_eq!(
        system_resolvers(&adapters),
        vec![v4(8, 8, 8, 8), v4(1, 1, 1, 1), v4(8, 8, 8, 8)]
    );
}

#[test]
fn no_adapters_no_resolvers() {
    assert_eq!(system_resolvers(&vec![]), vec![]);
}

#[test]
fn only_the_fec0_prefix_is_filtered() {
    assert!(!is_plausible(&v6(0xfe, 0xc0, 0)));
    assert!(is_plausible(&v6(0xfe, 0x80, 0)));
    assert!(is_plausible(&v6(0xfd, 0xc0, 0)));
    assert!(is_plausible(&v6(0xc0, 0xfe, 0)));
    assert!(is_plausible(&v4(0xfe, 0xc0, 0, 0)));
}

#[test]
fn dns_config_string_separates_servers_with_commas() {
    assert_eq!(dns_config_string(&strings(&["1.1.1.1", "8.8.8.8"])), "1.1.1.1,8.8.8.8");
    assert_eq!(dns_config_string(&strings(&["100.100.111.1"])), "100.100.111.1");
    assert_eq!(dns_config_string(&strings(&[])), "");
    assert_eq!(
        dns_config_string(&strings(&["fd00:2021:1111:8000:100:100:111:0", "10.0.0.1"])),
        "fd00:2021:1111:8000:100:100:111:0,10.0.0.1"
    );
}

#[test]
fn config_string_splits_back_into_servers() {
    let servers = strings(&["1.1.1.1", "::1", "8.8.4.4"]);
    let joined = dns_config_string(&servers);
    let back: Vec<String> = joined.split(',').map(|s| s.to_string()).collect();
    assert_eq!(back, servers);
}

#[test]
fn join_texts_and_push_text() {
    let mut v = Vec::new();
    push_text(&mut v, "a");
    push_text(&mut v, "");
    push_text(&mut v, "c");
    assert_eq!(v, strings(&["a", "", "c"]));
    assert_eq!(join_texts(&v, ", "), "a, , c");
}

#[test]
fn nrpt_rule_claims_every_name_for_the_given_servers() {
    let rule = nrpt_rule(&strings(&["100.100.111.1", "100.100.111.2"]));
    assert_eq!(
        rule.key_path,
        strings(&[
            "SYSTEM",
            "CurrentControlSet",
            "Services",
            "Dnscache",
            "Parameters",
            "DnsPolicyConfig",
            "{6C0507CB-C884-4A78-BC55-0ACEE21227F6}",
        ])
    );
    assert_eq!(NRPT_REG_KEY, "{6C0507CB-C884-4A78-BC55-0ACEE21227F6}");
    let entries: Vec<(String, RegistryValue)> =
        rule.entries.into_iter().map(|e| (e.name, e.value)).collect();
    assert_eq!(
        entries,
        vec![
            ("Comment".to_string(), RegistryValue::Text("firezone-fd0020211111".to_string())),
            ("ConfigOptions".to_string(), RegistryValue::Number(8)),
            ("DisplayName".to_string(), RegistryValue::Text("Firezone SplitDNS".to_string())),
            (
                "GenericDNSServers".to_string(),
                RegistryValue::Text("100.100.111.1,100.100.111.2".to_string())
            ),
            ("IPSECCARestriction".to_string(), RegistryValue::Text(String::new())),
            ("Name".to_string(), RegistryValue::TextList(strings(&["."]))),
            ("Version".to_string(), RegistryValue::Number(2)),
        ]
    );
}

#[test]
fn deactivate_removes_rules_with_our_comment() {
    let command = deactivate_command();
    assert_eq!(command.program, "powershell");
    assert_eq!(
        command.args,
        strings(&[
            "-Command",
            "Get-DnsClientNrptRule",
            "|",
            "where",
            "Comment",
            "-eq",
            "firezone-fd0020211111",
            "|",
            "foreach",
            "{",
            "Remove-DnsClientNrptRule",
            "-Name",
            "$_.Name",
            "-Force",
            "}",
        ])
    );
    let rule = nrpt_rule(&strings(&["1.1.1.1"]));
    assert_eq!(rule.entries[0].value, RegistryValue::Text(command.args[6].clone()));
    assert_eq!(FZ_MAGIC, command.args[6]);
}

#[test]
fn flush_runs_ipconfig() {
    let command = flush_command();
    assert_eq!(command.program, "ipconfig");
    assert_eq!(command.args, strings(&["/flushdns"]));
}
