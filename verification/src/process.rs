//! The service processes that the init process launches: what one is, and
//! the fixed table of them.

use vstd::prelude::*;
use vstd::string::*;

verus! {

/// What went wrong with a managed process.
#[derive(Clone, Copy, Debug, PartialEq, Eq, Structural)]
pub enum Failure {
    /// The operating system did not create the process.
    Spawn,
    /// Waiting for the process failed before any exit was observed.
    Wait,
}

/// One child service: the name it goes by in diagnostics, the executable
/// (looked up on the search path), its arguments in order, the environment
/// variables set for it, and whether the enclave lives and dies with it.
#[derive(Debug)]
pub struct ManagedProcess {
    pub name: String,
    pub program: String,
    pub args: Vec<String>,
    pub env: Vec<(String, String)>,
    pub critical: bool,
}

/// What a `ManagedProcess` stands for.
pub struct ProcessView {
    pub name: Seq<char>,
    pub program: Seq<char>,
    pub args: Seq<Seq<char>>,
    pub env: Seq<(Seq<char>, Seq<char>)>,
    pub critical: bool,
}

/// The texts of a list of strings.
pub open spec fn texts(strings: Seq<String>) -> Seq<Seq<char>> {
    strings.map_values(|s: String| s@)
}

/// The texts of a list of pairs of strings.
pub open spec fn text_pairs(pairs: Seq<(String, String)>) -> Seq<(Seq<char>, Seq<char>)> {
    pairs.map_values(|pair: (String, String)| (pair.0@, pair.1@))
}

impl View for ManagedProcess {
    type V = ProcessView;

    open spec fn view(&self) -> ProcessView {
        ProcessView {
            name: self.name@,
            program: self.program@,
            args: texts(self.args@),
            env: text_pairs(self.env@),
            critical: self.critical,
        }
    }
}

/// The views of a table of processes, in order.
pub open spec fn table_view(table: Seq<ManagedProcess>) -> Seq<ProcessView> {
    table.map_values(|process: ManagedProcess| process@)
}

/// The criticality flags of a table of processes, in order.
pub open spec fn critical_flags(table: Seq<ProcessView>) -> Seq<bool> {
    table.map_values(|process: ProcessView| process.critical)
}

impl ProcessView {
    /// The diagnostic of a fatal failure of this process.
    pub open spec fn failure_message(self, failure: Failure) -> Seq<char> {
        match failure {
            Failure::Spawn => self.name + " failed to start."@,
            Failure::Wait => self.name + " has exited."@,
        }
    }
}

/// The token-exposure server: not critical, launched first, with strict mode
/// forced through its environment.
pub open spec fn token_server() -> ProcessView {
    ProcessView {
        name: "p11-kit server"@,
        program: "p11-kit"@,
        args: seq![
            "server"@,
            "-n"@,
            "vsock:port=9999"@,
            "--provider"@,
            "/usr/lib/libvtok_p11.so"@,
            "-f"@,
            "-v"@,
            "pkcs11:"@,
        ],
        env: seq![("P11_KIT_STRICT"@, "yes"@)],
        critical: false,
    }
}

/// The provisioning and RPC server: the critical process, launched last.
pub open spec fn provisioning_server() -> ProcessView {
    ProcessView {
        name: "provisioning server"@,
        program: "p11ne-server"@,
        args: seq!["vsock"@, "10000"@],
        env: Seq::empty(),
        critical: true,
    }
}

/// The processes of the enclave, in launch order.
pub open spec fn fixed_table() -> Seq<ProcessView> {
    seq![token_server(), provisioning_server()]
}

impl ManagedProcess {
    /// The diagnostic with which the supervisor aborts when this process
    /// fails in the given way.
    pub fn failure_message(&self, failure: Failure) -> (text: String)
        ensures
            text@ == self@.failure_message(failure),
    {
        let mut text = self.name.clone();
        match failure {
            Failure::Spawn => text.append(" failed to start."),
            Failure::Wait => text.append(" has exited."),
        }
        text
    }
}

/// The processes of the enclave, in launch order: the token-exposure server,
/// then the provisioning server.
pub fn process_table() -> (table: Vec<ManagedProcess>)
    ensures
        table_view(table@) == fixed_table(),
{
    let mut args: Vec<String> = Vec::new();
    args.push(String::from_str("server"));
    args.push(String::from_str("-n"));
    args.push(String::from_str("vsock:port=9999"));
    args.push(String::from_str("--provider"));
    args.push(String::from_str("/usr/lib/libvtok_p11.so"));
    args.push(String::from_str("-f"));
    args.push(String::from_str("-v"));
    args.push(String::from_str("pkcs11:"));
    let mut env: Vec<(String, String)> = Vec::new();
    env.push((String::from_str("P11_KIT_STRICT"), String::from_str("yes")));
    let first = ManagedProcess {
        name: String::from_str("p11-kit server"),
        program: String::from_str("p11-kit"),
        args,
        env,
        critical: false,
    };
    assert(first@.args =~= token_server().args);
    assert(first@.env =~= token_server().env);

    let mut args: Vec<String> = Vec::new();
    args.push(String::from_str("vsock"));
    args.push(String::from_str("10000"));
    let second = ManagedProcess {
        name: String::from_str("provisioning server"),
        program: String::from_str("p11ne-server"),
        args,
        env: Vec::new(),
        critical: true,
    };
    assert(second@.args =~= provisioning_server().args);
    assert(second@.env =~= provisioning_server().env);

    let mut table: Vec<ManagedProcess> = Vec::new();
    table.push(first);
    table.push(second);
    assert(table_view(table@) =~= fixed_table());
    table
}

} // verus!
