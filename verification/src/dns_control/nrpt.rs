use vstd::prelude::*;

use crate::dns_control::text::{join, join_texts, lemma_split_join, push_text, split, texts};

verus! {

/// Marks the NRPT rule that Firezone writes, so that it can be found and
/// removed again.
pub const FZ_MAGIC: &'static str = "firezone-fd0020211111";

/// The registry key name of Firezone's NRPT rule, fixed once for all installs.
pub const NRPT_REG_KEY: &'static str = "{6C0507CB-C884-4A78-BC55-0ACEE21227F6}";

/// A value stored under a registry key.
#[derive(Debug, PartialEq, Eq)]
pub enum RegistryValue {
    /// A `REG_SZ` string.
    Text(String),
    /// A `REG_DWORD` number.
    Number(u32),
    /// A `REG_MULTI_SZ` list of strings.
    TextList(Vec<String>),
}

/// What a [`RegistryValue`] holds.
pub enum RegistryValueView {
    Text(Seq<char>),
    Number(u32),
    TextList(Seq<Seq<char>>),
}

impl View for RegistryValue {
    type V = RegistryValueView;

    open spec fn view(&self) -> RegistryValueView {
        match self {
            RegistryValue::Text(s) => RegistryValueView::Text(s@),
            RegistryValue::Number(n) => RegistryValueView::Number(*n),
            RegistryValue::TextList(l) => RegistryValueView::TextList(texts(l@)),
        }
    }
}

/// A named value to write under a registry key.
#[derive(Debug, PartialEq, Eq)]
pub struct RegistryEntry {
    pub name: String,
    pub value: RegistryValue,
}

impl View for RegistryEntry {
    type V = (Seq<char>, RegistryValueView);

    open spec fn view(&self) -> (Seq<char>, RegistryValueView) {
        (self.name@, self.value@)
    }
}

/// A Name Resolution Policy Table rule: the registry key, below
/// `HKEY_LOCAL_MACHINE`, that holds it, and the values to write there.
#[derive(Debug, PartialEq, Eq)]
pub struct NrptRule {
    /// The path of the key, one component after another.
    pub key_path: Vec<String>,
    /// The values, in the order in which they are written.
    pub entries: Vec<RegistryEntry>,
}

/// The path, below `HKEY_LOCAL_MACHINE`, of the key that holds Firezone's rule.
pub open spec fn spec_nrpt_key_path() -> Seq<Seq<char>> {
    seq![
        "SYSTEM"@,
        "CurrentControlSet"@,
        "Services"@,
        "Dnscache"@,
        "Parameters"@,
        "DnsPolicyConfig"@,
        NRPT_REG_KEY@,
    ]
}

/// The value of `GenericDNSServers`: the servers, separated by commas, e.g. `1.1.1.1,8.8.8.8`.
pub open spec fn spec_dns_config_string(dns_servers: Seq<Seq<char>>) -> Seq<char> {
    join(dns_servers, ","@)
}

/// The values of the rule that sends every DNS query (the namespace `.`) to
/// `dns_servers`.
pub open spec fn spec_nrpt_entries(dns_servers: Seq<Seq<char>>) -> Seq<(Seq<char>, RegistryValueView)> {
    seq![
        ("Comment"@, RegistryValueView::Text(FZ_MAGIC@)),
        ("ConfigOptions"@, RegistryValueView::Number(8)),
        ("DisplayName"@, RegistryValueView::Text("Firezone SplitDNS"@)),
        ("GenericDNSServers"@, RegistryValueView::Text(spec_dns_config_string(dns_servers))),
        ("IPSECCARestriction"@, RegistryValueView::Text(""@)),
        ("Name"@, RegistryValueView::TextList(seq!["."@])),
        ("Version"@, RegistryValueView::Number(2)),
    ]
}

/// The entries of a rule, as plain values.
pub open spec fn entries_view(entries: Seq<RegistryEntry>) -> Seq<(Seq<char>, RegistryValueView)> {
    entries.map_values(|e: RegistryEntry| e@)
}

/// The value of `GenericDNSServers` for `dns_servers`, each server written as
/// text: the servers, in order, separated by commas, e.g. `1.1.1.1,8.8.8.8`.
pub fn dns_config_string(dns_servers: &Vec<String>) -> (config: String)
    ensures
        config@ == spec_dns_config_string(texts(dns_servers@)),
{
    join_texts(dns_servers, ",")
}

fn push_entry(entries: &mut Vec<RegistryEntry>, name: &str, value: RegistryValue)
    ensures
        entries_view(final(entries)@) == entries_view(old(entries)@).push((name@, value@)),
{
    entries.push(RegistryEntry { name: String::from_str(name), value });
    proof {
        assert(entries_view(entries@) =~= entries_view(old(entries)@).push((name@, value@)));
    }
}

/// The NRPT rule that makes Windows send every DNS query to `dns_servers`
/// (each server written as text). Writing it activates Firezone's DNS control.
pub fn nrpt_rule(dns_servers: &Vec<String>) -> (rule: NrptRule)
    ensures
        texts(rule.key_path@) == spec_nrpt_key_path(),
        entries_view(rule.entries@) == spec_nrpt_entries(texts(dns_servers@)),
{
    let mut key_path: Vec<String> = Vec::new();
    push_text(&mut key_path, "SYSTEM");
    push_text(&mut key_path, "CurrentControlSet");
    push_text(&mut key_path, "Services");
    push_text(&mut key_path, "Dnscache");
    push_text(&mut key_path, "Parameters");
    push_text(&mut key_path, "DnsPolicyConfig");
    push_text(&mut key_path, NRPT_REG_KEY);

    let mut namespaces: Vec<String> = Vec::new();
    push_text(&mut namespaces, ".");
    assert(texts(namespaces@) =~= seq!["."@]);

    let mut entries: Vec<RegistryEntry> = Vec::new();
    push_entry(&mut entries, "Comment", RegistryValue::Text(String::from_str(FZ_MAGIC)));
    push_entry(&mut entries, "ConfigOptions", RegistryValue::Number(0x8));
    push_entry(&mut entries, "DisplayName", RegistryValue::Text(String::from_str("Firezone SplitDNS")));
    push_entry(&mut entries, "GenericDNSServers", RegistryValue::Text(dns_config_string(dns_servers)));
    push_entry(&mut entries, "IPSECCARestriction", RegistryValue::Text(String::from_str("")));
    push_entry(&mut entries, "Name", RegistryValue::TextList(namespaces));
    push_entry(&mut entries, "Version", RegistryValue::Number(0x2));
    proof {
        assert(texts(key_path@) =~= spec_nrpt_key_path());
        assert(entries_view(entries@) =~= spec_nrpt_entries(texts(dns_servers@)));
    }
    NrptRule { key_path, entries }
}

/// `GenericDNSServers` names exactly the servers of the rule, in order: split
/// at commas, it gives them back, as long as there is at least one server and no
/// server's text holds a comma.
pub proof fn lemma_dns_config_string_lists_servers(dns_servers: Seq<Seq<char>>)
    requires
        dns_servers.len() > 0,
        forall|i: int| 0 <= i < dns_servers.len() ==> !(#[trigger] dns_servers[i]).contains(','),
    ensures
        split(spec_dns_config_string(dns_servers), ',') == dns_servers,
{
    assert(","@ == seq![',']) by {
        reveal_strlit(",");
    }
    lemma_split_join(dns_servers, ',');
}

/// The rule names exactly the servers it is given: its `GenericDNSServers`
/// value is text that, split at commas, gives back the servers in order (for
/// at least one server, none holding a comma), and is empty when there are no
/// servers.
pub proof fn lemma_nrpt_rule_names_its_servers(dns_servers: Seq<Seq<char>>)
    ensures
        spec_nrpt_entries(dns_servers)[3].0 == "GenericDNSServers"@,
        spec_nrpt_entries(dns_servers)[3].1 is Text,
        dns_servers.len() > 0 && (forall|i: int|
            0 <= i < dns_servers.len() ==> !(#[trigger] dns_servers[i]).contains(','))
            ==> split(spec_nrpt_entries(dns_servers)[3].1->Text_0, ',') == dns_servers,
        dns_servers.len() == 0 ==> spec_nrpt_entries(dns_servers)[3].1 == RegistryValueView::Text(
            Seq::empty(),
        ),
{
    if dns_servers.len() > 0 && (forall|i: int|
        0 <= i < dns_servers.len() ==> !(#[trigger] dns_servers[i]).contains(',')) {
        lemma_dns_config_string_lists_servers(dns_servers);
    }
}

} // verus!
