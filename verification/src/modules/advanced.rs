//! The utilities: the Mihomo kernel download, passwordless TTYD, and the
//! deployment of an SSL certificate for the web interface.

use vstd::prelude::*;

use crate::text::{ends_with, ends_with_str, str_eq, views};
use crate::uci::{uci_commit, uci_set, Uci};
use crate::utils::system::{
    command, command_view, commands_view, push_command, push_step, restart_service, steps_view, Command,
    CommandView, Step,
};

verus! {

/// The name Mihomo uses for the CatWrt architecture `arch`, if it has a
/// kernel for it.
pub open spec fn spec_mihomo_arch(arch: Seq<char>) -> Option<Seq<char>> {
    if arch == "amd64"@ {
        Some("amd64"@)
    } else if arch == "mt7621"@ {
        Some("mipsle-softfloat"@)
    } else if arch == "mt798x"@ || arch == "rkarm"@ {
        Some("armv8"@)
    } else {
        None
    }
}

/// The name Mihomo uses for the CatWrt architecture `arch`: amd64 is amd64,
/// mt7621 is mipsle-softfloat, mt798x and rkarm are armv8; others have none.
pub fn mihomo_arch(arch: &str) -> (r: Option<&'static str>)
    ensures
        match spec_mihomo_arch(arch@) {
            Some(a) => r matches Some(x) && x@ == a,
            None => r is None,
        },
{
    if str_eq(arch, "amd64") {
        Some("amd64")
    } else if str_eq(arch, "mt7621") {
        Some("mipsle-softfloat")
    } else if str_eq(arch, "mt798x") || str_eq(arch, "rkarm") {
        Some("armv8")
    } else {
        None
    }
}

/// Where the Mihomo kernel for the Mihomo architecture `arch` is downloaded
/// from.
pub fn mihomo_download_url(arch: &str) -> (r: String)
    ensures
        r@ == "https://raw.miaoer.net/Meta-Kernel/"@ + arch@ + "/clash.meta"@,
{
    let mut r = String::from_str("https://raw.miaoer.net/Meta-Kernel/");
    r.append(arch);
    r.append("/clash.meta");
    r
}

/// Where the downloaded Mihomo kernel is kept.
pub const MIHOMO_KERNEL_PATH: &'static str = "/tmp/clash.meta";

/// The command that makes the file at `path` executable.
pub fn make_executable(path: &str) -> (c: Command)
    ensures
        command_view(c) == ("chmod"@, seq!["+x"@, path@]),
{
    let mut a: Vec<String> = Vec::new();
    a.push(String::from_str("+x"));
    a.push(String::from_str(path));
    let c = command("chmod", a);
    assert(views(c.args@) =~= seq!["+x"@, path@]);
    c
}

/// The commands that let TTYD log in as root without a password: set its
/// login command, commit, restart TTYD.
pub fn ttyd_passwordless_plan(uci: &Uci) -> (r: Vec<Command>)
    ensures
        commands_view(r@) == seq![
            uci_set("ttyd.@ttyd[0].command"@, "/bin/login -f root"@),
            uci_commit("ttyd"@),
            ("/etc/init.d"@, seq!["ttyd"@, "restart"@]),
        ],
{
    let mut r: Vec<Command> = Vec::new();
    push_command(&mut r, uci.set("ttyd.@ttyd[0].command", "/bin/login -f root"));
    push_command(&mut r, uci.commit("ttyd"));
    push_command(&mut r, restart_service("ttyd"));
    r
}

/// A certificate file: its name ends with `.pem` or `.crt`.
pub open spec fn is_cert_file(p: Seq<char>) -> bool {
    ends_with(p, ".pem"@) || ends_with(p, ".crt"@)
}

/// A key file: its name ends with `.key` (and it is not a certificate file).
pub open spec fn is_key_file(p: Seq<char>) -> bool {
    !is_cert_file(p) && ends_with(p, ".key"@)
}

/// The index of the last path in `ps` that satisfies `f`.
pub open spec fn last_index_where(ps: Seq<Seq<char>>, f: spec_fn(Seq<char>) -> bool) -> Option<
    nat,
>
    decreases ps.len(),
{
    if ps.len() == 0 {
        None
    } else if f(ps.last()) {
        Some((ps.len() - 1) as nat)
    } else {
        last_index_where(ps.drop_last(), f)
    }
}

/// The option of an index, as the index of a `usize`.
pub open spec fn opt_nat(o: Option<usize>) -> Option<nat> {
    match o {
        Some(i) => Some(i as nat),
        None => None,
    }
}

/// Among the extracted files `paths`, the certificate and the key to deploy:
/// the last certificate file (`.pem` or `.crt`) and the last key file
/// (`.key`), by index.
pub fn find_certificate_files(paths: &Vec<String>) -> (r: (Option<usize>, Option<usize>))
    ensures
        opt_nat(r.0) == last_index_where(views(paths@), |p: Seq<char>| is_cert_file(p)),
        opt_nat(r.1) == last_index_where(views(paths@), |p: Seq<char>| is_key_file(p)),
{
    let ghost ps = views(paths@);
    let mut cert: Option<usize> = None;
    let mut key: Option<usize> = None;
    let mut i: usize = 0;
    assert(ps.take(0) =~= Seq::<Seq<char>>::empty());
    while i < paths.len()
        invariant
            i <= paths@.len(),
            ps == views(paths@),
            opt_nat(cert) == last_index_where(ps.take(i as int), |p: Seq<char>| is_cert_file(p)),
            opt_nat(key) == last_index_where(ps.take(i as int), |p: Seq<char>| is_key_file(p)),
        decreases paths@.len() - i,
    {
        let p = paths[i].as_str();
        assert(ps.take(i + 1).drop_last() =~= ps.take(i as int));
        assert(ps.take(i + 1).last() == p@);
        if ends_with_str(p, ".pem") || ends_with_str(p, ".crt") {
            cert = Some(i);
        } else if ends_with_str(p, ".key") {
            key = Some(i);
        }
        i = i + 1;
    }
    assert(ps.take(paths@.len() as int) =~= ps);
    (cert, key)
}

/// Where the web server's certificate goes.
pub const UHTTPD_CERT: &'static str = "/etc/uhttpd.crt";

/// Where the web server's key goes.
pub const UHTTPD_KEY: &'static str = "/etc/uhttpd.key";

/// The commands that make the web server use the deployed certificate and
/// key: set both, commit, restart the web server.
pub fn ssl_cert_plan(uci: &Uci) -> (r: Vec<Command>)
    ensures
        commands_view(r@) == seq![
            uci_set("uhttpd.main.cert"@, UHTTPD_CERT@),
            uci_set("uhttpd.main.key"@, UHTTPD_KEY@),
            uci_commit("uhttpd"@),
            ("/etc/init.d"@, seq!["uhttpd"@, "restart"@]),
        ],
{
    let mut r: Vec<Command> = Vec::new();
    push_command(&mut r, uci.set("uhttpd.main.cert", UHTTPD_CERT));
    push_command(&mut r, uci.set("uhttpd.main.key", UHTTPD_KEY));
    push_command(&mut r, uci.commit("uhttpd"));
    push_command(&mut r, restart_service("uhttpd"));
    r
}

// ---------------------------------------------------------------------------
// Confirmations before irreversible tasks
// ---------------------------------------------------------------------------

/// Where a run of confirmations stands.
#[derive(Debug, Clone, Copy, PartialEq, Eq, Structural)]
pub enum Confirmation {
    /// Ask the confirmation question at this position.
    Ask(usize),
    /// The user declined: the task does not run.
    Cancelled,
    /// Every confirmation was given: the task runs.
    Proceed,
}

/// The confirmations before TTYD logs in without a password.
pub const TTYD_CONFIRMATIONS: usize = 2;

/// The confirmations before the root password is reset.
pub const PASSWORD_RESET_CONFIRMATIONS: usize = 1;

/// The confirmations before the factory reset.
pub const FACTORY_RESET_CONFIRMATIONS: usize = 3;

/// What follows the answer `yes` to confirmation `given` of `needed`: a no
/// cancels; the last yes lets the task run; another yes asks the next one.
pub open spec fn confirmation_next(needed: nat, given: nat, yes: bool) -> Confirmation {
    if !yes {
        Confirmation::Cancelled
    } else if given + 1 >= needed {
        Confirmation::Proceed
    } else {
        Confirmation::Ask((given + 1) as usize)
    }
}

/// The first step of a run of confirmations: ask the first one.
pub fn confirm_start() -> (r: Confirmation)
    ensures
        r == Confirmation::Ask(0),
{
    Confirmation::Ask(0)
}

/// What follows the answer `yes` to confirmation `given` of `needed`.
pub fn confirm_step(needed: usize, given: usize, yes: bool) -> (r: Confirmation)
    requires
        given < needed,
    ensures
        r == confirmation_next(needed as nat, given as nat, yes),
{
    if !yes {
        Confirmation::Cancelled
    } else if given + 1 >= needed {
        Confirmation::Proceed
    } else {
        Confirmation::Ask(given + 1)
    }
}

/// Where a run of `needed` confirmations ends, from confirmation `given` on,
/// when the user answers `answers` in turn (still asking when the answers
/// run out).
pub open spec fn confirmation_outcome(needed: nat, answers: Seq<bool>, given: nat) -> Confirmation
    decreases answers.len() - given,
{
    if given >= answers.len() {
        Confirmation::Ask(given as usize)
    } else {
        match confirmation_next(needed, given, answers[given as int]) {
            Confirmation::Ask(_) => confirmation_outcome(needed, answers, given + 1),
            c => c,
        }
    }
}

/// A task behind `needed` confirmations runs exactly when the first
/// `needed` answers are all yes.
pub proof fn lemma_proceed_needs_every_confirmation(needed: nat, answers: Seq<bool>, given: nat)
    requires
        given < needed,
    ensures
        confirmation_outcome(needed, answers, given) == Confirmation::Proceed <==> (answers.len()
            >= needed && forall|i: int| given <= i < needed ==> #[trigger] answers[i]),
    decreases answers.len() - given,
{
    if given < answers.len() && answers[given as int] && given + 1 < needed {
        lemma_proceed_needs_every_confirmation(needed, answers, given + 1);
        assert((forall|i: int| given <= i < needed ==> #[trigger] answers[i]) <==> (forall|i: int|
            given + 1 <= i < needed ==> #[trigger] answers[i])) by {
            if forall|i: int| given + 1 <= i < needed ==> #[trigger] answers[i] {
                assert forall|i: int| given <= i < needed implies #[trigger] answers[i] by {
                    if i > given {
                        assert(answers[i]);
                    }
                }
            }
        }
    } else if given < answers.len() && !answers[given as int] {
        assert(!answers[given as int]);
    }
}

/// The factory reset: reset the configuration (its failure ends the task),
/// then reboot (whose failure is ignored).
pub fn factory_reset_plan() -> (r: Vec<Step>)
    ensures
        steps_view(r@) == seq![(("firstboot"@, seq!["-y"@]), true), (("reboot"@, Seq::<Seq<char>>::empty()), false)],
{
    let mut r: Vec<Step> = Vec::new();
    let mut a: Vec<String> = Vec::new();
    a.push(String::from_str("-y"));
    let c = command("firstboot", a);
    assert(views(c.args@) =~= seq!["-y"@]);
    push_step(&mut r, c, true);
    let c2 = command("reboot", Vec::new());
    assert(views(c2.args@) =~= Seq::<Seq<char>>::empty());
    push_step(&mut r, c2, false);
    r
}

/// Where the script that resets the root password is written.
pub const PASSWORD_RESET_SCRIPT_PATH: &'static str = "/tmp/reset_passwd.sh";

/// The script that sets the root password to `password`.
pub const PASSWORD_RESET_SCRIPT: &'static str = "#!/bin/sh\necho \"root:password\" | chpasswd\n";

/// Resetting the root password: make the script executable, run it; either
/// failure ends the task.
pub fn password_reset_plan() -> (r: Vec<Step>)
    ensures
        steps_view(r@) == seq![
            (("chmod"@, seq!["+x"@, PASSWORD_RESET_SCRIPT_PATH@]), true),
            (("sh"@, seq![PASSWORD_RESET_SCRIPT_PATH@]), true),
        ],
{
    let mut r: Vec<Step> = Vec::new();
    push_step(&mut r, make_executable(PASSWORD_RESET_SCRIPT_PATH), true);
    let mut a: Vec<String> = Vec::new();
    a.push(String::from_str(PASSWORD_RESET_SCRIPT_PATH));
    let c = command("sh", a);
    assert(views(c.args@) =~= seq![PASSWORD_RESET_SCRIPT_PATH@]);
    push_step(&mut r, c, true);
    r
}

} // verus!
