use vstd::prelude::*;

use crate::dns_control::nrpt::{spec_nrpt_entries, RegistryValueView, FZ_MAGIC};
use crate::dns_control::text::{push_text, texts};

verus! {

/// A program to run, with its arguments.
#[derive(Debug, PartialEq, Eq)]
pub struct CommandLine {
    pub program: String,
    pub args: Vec<String>,
}

/// The PowerShell pipeline that removes every NRPT rule whose comment is
/// [`FZ_MAGIC`], and so every rule that Firezone wrote.
pub open spec fn spec_deactivate_args() -> Seq<Seq<char>> {
    seq![
        "-Command"@,
        "Get-DnsClientNrptRule"@,
        "|"@,
        "where"@,
        "Comment"@,
        "-eq"@,
        FZ_MAGIC@,
        "|"@,
        "foreach"@,
        "{"@,
        "Remove-DnsClientNrptRule"@,
        "-Name"@,
        "$_.Name"@,
        "-Force"@,
        "}"@,
    ]
}

/// The command that gives up any control Firezone has over the system's DNS:
/// `powershell` running [`spec_deactivate_args`].
pub fn deactivate_command() -> (command: CommandLine)
    ensures
        command.program@ == "powershell"@,
        texts(command.args@) == spec_deactivate_args(),
{
    let mut args: Vec<String> = Vec::new();
    push_text(&mut args, "-Command");
    push_text(&mut args, "Get-DnsClientNrptRule");
    push_text(&mut args, "|");
    push_text(&mut args, "where");
    push_text(&mut args, "Comment");
    push_text(&mut args, "-eq");
    push_text(&mut args, FZ_MAGIC);
    push_text(&mut args, "|");
    push_text(&mut args, "foreach");
    push_text(&mut args, "{");
    push_text(&mut args, "Remove-DnsClientNrptRule");
    push_text(&mut args, "-Name");
    push_text(&mut args, "$_.Name");
    push_text(&mut args, "-Force");
    push_text(&mut args, "}");
    proof {
        assert(texts(args@) =~= spec_deactivate_args());
    }
    CommandLine { program: String::from_str("powershell"), args }
}

/// The command that flushes the system-wide DNS cache: `ipconfig /flushdns`.
pub fn flush_command() -> (command: CommandLine)
    ensures
        command.program@ == "ipconfig"@,
        texts(command.args@) == seq!["/flushdns"@],
{
    let mut args: Vec<String> = Vec::new();
    push_text(&mut args, "/flushdns");
    proof {
        assert(texts(args@) =~= seq!["/flushdns"@]);
    }
    CommandLine { program: String::from_str("ipconfig"), args }
}

/// Deactivation removes the rule that activation writes, whatever DNS servers
/// it names: the rule's first value is its `Comment`, and the removal pipeline
/// selects the NRPT rules `where Comment -eq` that very text, then removes
/// each of them.
pub proof fn lemma_deactivation_removes_written_rule(dns_servers: Seq<Seq<char>>)
    ensures
        spec_nrpt_entries(dns_servers)[0] == ("Comment"@, RegistryValueView::Text(
            spec_deactivate_args()[6],
        )),
        spec_deactivate_args().subrange(3, 7) == seq![
            "where"@,
            "Comment"@,
            "-eq"@,
            spec_deactivate_args()[6],
        ],
        spec_deactivate_args().subrange(1, 3) == seq!["Get-DnsClientNrptRule"@, "|"@],
        spec_deactivate_args().subrange(7, 15) == seq![
            "|"@,
            "foreach"@,
            "{"@,
            "Remove-DnsClientNrptRule"@,
            "-Name"@,
            "$_.Name"@,
            "-Force"@,
            "}"@,
        ],
{
    assert(spec_deactivate_args().subrange(3, 7) =~= seq![
        "where"@,
        "Comment"@,
        "-eq"@,
        spec_deactivate_args()[6],
    ]);
    assert(spec_deactivate_args().subrange(1, 3) =~= seq!["Get-DnsClientNrptRule"@, "|"@]);
    assert(spec_deactivate_args().subrange(7, 15) =~= seq![
        "|"@,
        "foreach"@,
        "{"@,
        "Remove-DnsClientNrptRule"@,
        "-Name"@,
        "$_.Name"@,
        "-Force"@,
        "}"@,
    ]);
}

} // verus!
