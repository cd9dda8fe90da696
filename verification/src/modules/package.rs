//! Package management: choosing the package source, backing up and
//! restoring installed packages, installing a single package file.

use vstd::prelude::*;

use crate::text::{
    first_word, first_word_str, join, join_with, lemma_filter_all, lemma_first_word_shape, lemma_lines_join,
    lemma_trim_no_ws, lines, lines_of, no_ws, nonblank, nonblank_lines, nonblank_lines_of, split, split_char, str_eq,
    trim, views,
};
use crate::error::CatoolsError;
use crate::utils::system::{command, command_view, push_step, steps_view, Command, CommandView, Step};

verus! {

// ---------------------------------------------------------------------------
// Backup and restore
// ---------------------------------------------------------------------------

/// The first word of each line that has one.
pub open spec fn first_words(ls: Seq<Seq<char>>) -> Seq<Seq<char>>
    decreases ls.len(),
{
    if ls.len() == 0 {
        Seq::empty()
    } else {
        let p = first_words(ls.drop_last());
        match first_word(ls.last()) {
            Some(w) => p.push(w),
            None => p,
        }
    }
}

/// The names of the installed packages in the output of `opkg
/// list-installed`: the first word of each line.
pub open spec fn installed_names(opkg_output: Seq<char>) -> Seq<Seq<char>> {
    first_words(lines(opkg_output))
}

/// The names of the installed packages in the output of `opkg
/// list-installed`.
pub fn installed_packages(opkg_output: &str) -> (r: Vec<String>)
    ensures
        views(r@) == installed_names(opkg_output@),
{
    let ls = lines_of(opkg_output);
    let ghost all = lines(opkg_output@);
    let mut out: Vec<String> = Vec::new();
    let mut k: usize = 0;
    assert(all.take(0) =~= Seq::<Seq<char>>::empty());
    while k < ls.len()
        invariant
            k <= ls@.len(),
            views(ls@) == all,
            views(out@) == first_words(all.take(k as int)),
        decreases ls@.len() - k,
    {
        let ghost t = all.take(k + 1);
        assert(t.drop_last() =~= all.take(k as int));
        assert(t.last() == ls@[k as int]@);
        match first_word_str(ls[k].as_str()) {
            Some(w) => {
                proof {
                    crate::text::lemma_views_push(out@, w);
                }
                out.push(w);
            },
            None => {},
        }
        k = k + 1;
    }
    assert(all.take(ls@.len() as int) =~= all);
    out
}

/// Does `v` hold the text `s`?
pub fn contains_text(v: &Vec<String>, s: &str) -> (r: bool)
    ensures
        r == views(v@).contains(s@),
{
    let mut i: usize = 0;
    while i < v.len()
        invariant
            i <= v@.len(),
            forall|j: int| 0 <= j < i ==> v@[j]@ != s@,
        decreases v@.len() - i,
    {
        if str_eq(v[i].as_str(), s) {
            assert(views(v@)[i as int] == s@);
            return true;
        }
        i = i + 1;
    }
    assert forall|j: int| 0 <= j < views(v@).len() implies views(v@)[j] != s@ by {
        assert(v@[j]@ != s@);
    }
    false
}

/// The packages of `common` that are installed, in the order of `common`.
pub open spec fn backup_selection(common: Seq<Seq<char>>, installed: Seq<Seq<char>>) -> Seq<
    Seq<char>,
> {
    common.filter(|p: Seq<char>| installed.contains(p))
}

/// The packages of `common` that appear in the output of `opkg
/// list-installed`, in the order of `common`: what a backup records.
pub fn backup_list(common: &Vec<String>, opkg_output: &str) -> (r: Vec<String>)
    ensures
        views(r@) == backup_selection(views(common@), installed_names(opkg_output@)),
{
    let installed = installed_packages(opkg_output);
    let ghost inst = views(installed@);
    let ghost all = views(common@);
    let mut out: Vec<String> = Vec::new();
    let mut k: usize = 0;
    assert(all.take(0).filter(|p: Seq<char>| inst.contains(p)) =~= Seq::<Seq<char>>::empty())
        by {
        reveal_with_fuel(Seq::filter, 1);
    }
    while k < common.len()
        invariant
            k <= common@.len(),
            all == views(common@),
            inst == views(installed@),
            views(out@) == all.take(k as int).filter(|p: Seq<char>| inst.contains(p)),
        decreases common@.len() - k,
    {
        let p = common[k].as_str();
        let ghost prev = all.take(k as int);
        assert(all.take(k + 1) =~= prev.push(p@));
        proof {
            prev.lemma_filter_push(p@, |q: Seq<char>| inst.contains(q));
        }
        if contains_text(&installed, p) {
            let s = String::from_str(p);
            proof {
                crate::text::lemma_views_push(out@, s);
            }
            out.push(s);
        }
        k = k + 1;
    }
    assert(all.take(common@.len() as int) =~= all);
    out
}

/// `s` without repeated elements, each kept where it first appears.
pub open spec fn dedup(s: Seq<Seq<char>>) -> Seq<Seq<char>>
    decreases s.len(),
{
    if s.len() == 0 {
        Seq::empty()
    } else {
        let p = dedup(s.drop_last());
        if p.contains(s.last()) {
            p
        } else {
            p.push(s.last())
        }
    }
}

/// The package names of a backup file: its lines, trimmed, without blank
/// ones and without repeats.
pub open spec fn backup_names(content: Seq<char>) -> Seq<Seq<char>> {
    dedup(nonblank_lines(content))
}

/// The packages of a backup that are not installed, each once, in the order
/// in which the backup first names them.
pub open spec fn missing_names(backup: Seq<char>, opkg_output: Seq<char>) -> Seq<Seq<char>> {
    backup_names(backup).filter(|p: Seq<char>| !installed_names(opkg_output).contains(p))
}

/// The packages named in the backup file `backup` that the output of `opkg
/// list-installed` does not list: what a restore installs.
pub fn packages_to_restore(backup: &str, opkg_output: &str) -> (r: Vec<String>)
    ensures
        views(r@) == missing_names(backup@, opkg_output@),
        views(r@).no_duplicates(),
{
    let entries = nonblank_lines_of(backup);
    let installed = installed_packages(opkg_output);
    let ghost es = views(entries@);
    let ghost inst = views(installed@);
    let mut seen: Vec<String> = Vec::new();
    let mut out: Vec<String> = Vec::new();
    let mut k: usize = 0;
    assert(es.take(0) =~= Seq::<Seq<char>>::empty());
    assert(dedup(es.take(0)).filter(|p: Seq<char>| !inst.contains(p)) =~= Seq::<Seq<char>>::empty())
        by {
        reveal_with_fuel(Seq::filter, 1);
    }
    while k < entries.len()
        invariant
            k <= entries@.len(),
            es == views(entries@),
            inst == views(installed@),
            views(seen@) == dedup(es.take(k as int)),
            views(out@) == dedup(es.take(k as int)).filter(|p: Seq<char>| !inst.contains(p)),
            dedup(es.take(k as int)).no_duplicates(),
        decreases entries@.len() - k,
    {
        let e = entries[k].as_str();
        let ghost prev = dedup(es.take(k as int));
        let ghost t = es.take(k + 1);
        assert(t.drop_last() =~= es.take(k as int));
        assert(t.last() == e@);
        if !contains_text(&seen, e) {
            let s1 = String::from_str(e);
            proof {
                crate::text::lemma_views_push(seen@, s1);
                prev.lemma_filter_push(e@, |p: Seq<char>| !inst.contains(p));
                assert forall|i: int, j: int|
                    0 <= i < prev.push(e@).len() && 0 <= j < prev.push(e@).len() && i != j
                        implies prev.push(e@)[i] != prev.push(e@)[j] by {
                    if i < prev.len() && j < prev.len() {
                    } else if i == prev.len() {
                        assert(prev[j] == prev.push(e@)[j]);
                    } else {
                        assert(prev[i] == prev.push(e@)[i]);
                    }
                }
            }
            seen.push(s1);
            if !contains_text(&installed, e) {
                let s2 = String::from_str(e);
                proof {
                    crate::text::lemma_views_push(out@, s2);
                }
                out.push(s2);
            }
        }
        k = k + 1;
    }
    assert(es.take(entries@.len() as int) =~= es);
    proof {
        let d = dedup(es);
        d.lemma_filter_len(|p: Seq<char>| !inst.contains(p));
        lemma_filter_no_duplicates(d, |p: Seq<char>| !inst.contains(p));
    }
    out
}

/// Filtering keeps a sequence free of repeats.
proof fn lemma_filter_no_duplicates(s: Seq<Seq<char>>, f: spec_fn(Seq<char>) -> bool)
    requires
        s.no_duplicates(),
    ensures
        s.filter(f).no_duplicates(),
    decreases s.len(),
{
    reveal_with_fuel(Seq::filter, 1);
    if s.len() > 0 {
        let p = s.drop_last();
        assert(p.no_duplicates());
        lemma_filter_no_duplicates(p, f);
        if f(s.last()) {
            let q = p.filter(f);
            assert(!p.contains(s.last())) by {
                if p.contains(s.last()) {
                    let i = choose|i: int| 0 <= i < p.len() && p[i] == s.last();
                    assert(s[i] == s[s.len() - 1]);
                }
            }
            assert(!q.contains(s.last())) by {
                if q.contains(s.last()) {
                    let i = choose|i: int| 0 <= i < q.len() && q[i] == s.last();
                    p.lemma_filter_contains_rev(f, s.last());
                }
            }
            assert forall|i: int, j: int|
                0 <= i < q.push(s.last()).len() && 0 <= j < q.push(s.last()).len() && i != j
                    implies q.push(s.last())[i] != q.push(s.last())[j] by {
                if i == q.len() {
                    assert(q.contains(q[j]));
                } else if j == q.len() {
                    assert(q.contains(q[i]));
                }
            }
        }
    }
}

/// Every installed name is a non-empty word without white space.
proof fn lemma_first_words_shape(ls: Seq<Seq<char>>)
    ensures
        forall|k: int|
            0 <= k < first_words(ls).len() ==> (#[trigger] first_words(ls)[k]).len() > 0 && no_ws(
                first_words(ls)[k],
            ),
    decreases ls.len(),
{
    if ls.len() > 0 {
        let p = first_words(ls.drop_last());
        lemma_first_words_shape(ls.drop_last());
        lemma_first_word_shape(ls.last());
        if let Some(w) = first_word(ls.last()) {
            assert forall|k: int| 0 <= k < p.push(w).len() implies (#[trigger] p.push(w)[k]).len() > 0
                && no_ws(p.push(w)[k]) by {
                if k < p.len() {
                    assert(p.push(w)[k] == p[k]);
                }
            }
        }
    }
}

/// What `dedup` keeps comes from its argument.
proof fn lemma_dedup_subset(s: Seq<Seq<char>>, x: Seq<char>)
    requires
        dedup(s).contains(x),
    ensures
        s.contains(x),
    decreases s.len(),
{
    if s.len() > 0 {
        let p = s.drop_last();
        if dedup(p).contains(x) {
            lemma_dedup_subset(p, x);
            let i = choose|i: int| 0 <= i < p.len() && p[i] == x;
            assert(s[i] == x);
        } else {
            assert(x == s.last());
            assert(s[s.len() - 1] == x);
        }
    }
}

/// Restoring right after a backup, with the same packages installed,
/// installs nothing: the backup file written from the selection names
/// exactly the selected packages (each once), and every one of them is
/// installed.
pub proof fn lemma_restore_after_backup(common: Seq<Seq<char>>, opkg_output: Seq<char>)
    ensures
        ({
            let sel = backup_selection(common, installed_names(opkg_output));
            &&& backup_names(join(sel, "\n"@)) == dedup(sel)
            &&& missing_names(join(sel, "\n"@), opkg_output) == Seq::<Seq<char>>::empty()
        }),
{
    let inst = installed_names(opkg_output);
    let pred = |p: Seq<char>| inst.contains(p);
    let sel = common.filter(pred);
    lemma_first_words_shape(lines(opkg_output));
    common.filter_lemma(pred);
    assert forall|k: int| 0 <= k < sel.len() implies (#[trigger] sel[k]).len() > 0 && no_ws(sel[k]) by {
        assert(pred(sel[k]));
        let j = choose|j: int| 0 <= j < inst.len() && inst[j] == sel[k];
        assert(inst[j].len() > 0 && no_ws(inst[j]));
    }
    lemma_lines_join(sel);
    let content = join(sel, "\n"@);
    assert(lines(content) == sel);
    assert forall|k: int| 0 <= k < sel.len() implies trim(#[trigger] sel[k]) == sel[k] by {
        lemma_trim_no_ws(sel[k]);
    }
    assert(lines(content).map_values(|l: Seq<char>| trim(l)) =~= sel);
    lemma_filter_all(sel, |l: Seq<char>| nonblank(l));
    assert(nonblank_lines(content) == sel);
    let d = dedup(sel);
    let npred = |p: Seq<char>| !inst.contains(p);
    let m = d.filter(npred);
    d.filter_lemma(npred);
    if m.len() > 0 {
        assert(npred(m[0]));
        assert(m.contains(m[0]));
        d.lemma_filter_contains_rev(npred, m[0]);
        lemma_dedup_subset(sel, m[0]);
        let i = choose|i: int| 0 <= i < sel.len() && sel[i] == m[0];
        assert(pred(sel[i]));
    }
    assert(m =~= Seq::<Seq<char>>::empty());
}

/// The command that installs the package `pkg`.
pub fn opkg_install(pkg: &str) -> (c: Command)
    ensures
        command_view(c) == ("opkg"@, seq!["install"@, pkg@]),
{
    let mut a: Vec<String> = Vec::new();
    a.push(String::from_str("install"));
    a.push(String::from_str(pkg));
    let c = command("opkg", a);
    assert(views(c.args@) =~= seq!["install"@, pkg@]);
    c
}

/// The steps that install the packages `missing`, one `opkg install` each,
/// in order; a failed install is passed over.
pub open spec fn restore_steps(missing: Seq<Seq<char>>) -> Seq<(CommandView, bool)> {
    missing.map_values(|p: Seq<char>| (("opkg"@, seq!["install"@, p]), false))
}

/// The plan that installs the packages `missing`: one `opkg install` each,
/// in order, none of whose failures ends the plan.
pub fn restore_plan(missing: &Vec<String>) -> (r: Vec<Step>)
    ensures
        steps_view(r@) == restore_steps(views(missing@)),
{
    let ghost all = views(missing@);
    let mut r: Vec<Step> = Vec::new();
    let mut k: usize = 0;
    assert(steps_view(r@) =~= restore_steps(all.take(0)));
    while k < missing.len()
        invariant
            k <= missing@.len(),
            all == views(missing@),
            steps_view(r@) == restore_steps(all.take(k as int)),
        decreases missing@.len() - k,
    {
        let c = opkg_install(missing[k].as_str());
        assert(restore_steps(all.take(k + 1)) =~= restore_steps(all.take(k as int)).push(
            (command_view(c), false),
        ));
        push_step(&mut r, c, false);
        k = k + 1;
    }
    assert(all.take(missing@.len() as int) =~= all);
    r
}

/// How a restore starts once the missing packages are known.
#[derive(Debug, Clone, Copy, PartialEq, Eq, Structural)]
pub enum RestoreStart {
    /// Every backed-up package is installed: nothing to ask or do.
    NothingMissing,
    /// List the missing packages and ask whether to install them.
    AskToInstall,
}

/// How a restore of the packages `missing` starts.
pub fn restore_start(missing: &Vec<String>) -> (r: RestoreStart)
    ensures
        missing@.len() == 0 ==> r == RestoreStart::NothingMissing,
        missing@.len() > 0 ==> r == RestoreStart::AskToInstall,
{
    if missing.len() == 0 {
        RestoreStart::NothingMissing
    } else {
        RestoreStart::AskToInstall
    }
}

/// What a restore does once the user answered whether to install the
/// packages `missing`: their installs if yes, nothing if no.
pub fn restore_after_answer(missing: &Vec<String>, yes: bool) -> (r: Option<Vec<Step>>)
    ensures
        !yes ==> r is None,
        yes ==> (r matches Some(p) && steps_view(p@) == restore_steps(views(missing@))),
{
    if yes {
        Some(restore_plan(missing))
    } else {
        None
    }
}

/// What the package menu asks for.
#[derive(Debug, Clone, Copy, PartialEq, Eq, Structural)]
pub enum PackageMenuChoice {
    Backup,
    Restore,
    Back,
}

/// The choice at position `selection` of (back up, restore, back); any
/// later position is `Back`.
pub fn package_menu_choice(selection: usize) -> (c: PackageMenuChoice)
    ensures
        selection == 0 ==> c == PackageMenuChoice::Backup,
        selection == 1 ==> c == PackageMenuChoice::Restore,
        selection >= 2 ==> c == PackageMenuChoice::Back,
{
    match selection {
        0 => PackageMenuChoice::Backup,
        1 => PackageMenuChoice::Restore,
        _ => PackageMenuChoice::Back,
    }
}

// ---------------------------------------------------------------------------
// Installing a package file
// ---------------------------------------------------------------------------

/// Where a package file comes from.
#[derive(Debug, Clone, Copy, PartialEq, Eq, Structural)]
pub enum IpkSource {
    LocalFile,
    Download,
    Back,
}

/// The source at position `selection` of (local file, download, back); any
/// later position is `Back`.
pub fn ipk_source(selection: usize) -> (s: IpkSource)
    ensures
        selection == 0 ==> s == IpkSource::LocalFile,
        selection == 1 ==> s == IpkSource::Download,
        selection >= 2 ==> s == IpkSource::Back,
{
    match selection {
        0 => IpkSource::LocalFile,
        1 => IpkSource::Download,
        _ => IpkSource::Back,
    }
}

/// The install of a local package file: `opkg install path` if the file
/// exists, nothing otherwise.
pub fn local_ipk_install(path_exists: bool, path: &str) -> (r: Option<Command>)
    ensures
        path_exists ==> (r matches Some(c) && command_view(c) == ("opkg"@, seq!["install"@, path@])),
        !path_exists ==> r is None,
{
    if path_exists {
        Some(opkg_install(path))
    } else {
        None
    }
}

/// The file name of a download: the text after the last `'/'` of `url`.
pub open spec fn url_file_name(url: Seq<char>) -> Seq<char> {
    split(url, '/').last()
}

/// The file name of a download: the text after the last `'/'` of `url`.
pub fn ipk_file_name(url: &str) -> (r: String)
    ensures
        r@ == url_file_name(url@),
{
    let parts = split_char(url, '/');
    let n = parts.len();
    parts[n - 1].clone()
}

/// Where a downloaded package file is kept: `/tmp/` and its file name.
pub fn ipk_download_path(url: &str) -> (r: String)
    ensures
        r@ == "/tmp/"@ + url_file_name(url@),
{
    let name = ipk_file_name(url);
    let mut r = String::from_str("/tmp/");
    r.append(name.as_str());
    r
}

// ---------------------------------------------------------------------------
// Choosing the package source
// ---------------------------------------------------------------------------

/// `s` without the characters `c` at its end (`str::trim_end_matches`).
pub open spec fn trim_end_char(s: Seq<char>, c: char) -> Seq<char>
    decreases s.len(),
{
    if s.len() > 0 && s.last() == c {
        trim_end_char(s.drop_last(), c)
    } else {
        s
    }
}

/// `s` without the characters `c` at its end.
pub fn trim_end_char_str(s: &str, c: char) -> (r: String)
    ensures
        r@ == trim_end_char(s@, c),
{
    let cs = crate::text::chars_of(s);
    let mut b = cs.len();
    assert(cs@.subrange(0, b as int) =~= cs@);
    while b > 0 && cs[b - 1] == c
        invariant
            b <= cs@.len(),
            trim_end_char(s@, c) == trim_end_char(cs@.subrange(0, b as int), c),
            cs@ == s@,
        decreases b,
    {
        assert(cs@.subrange(0, b as int).drop_last() =~= cs@.subrange(0, b - 1));
        b = b - 1;
    }
    crate::text::collect(&cs, 0, b)
}

/// A question of the package-source dialogue.
#[derive(Debug, Clone, Copy, PartialEq, Eq, Structural)]
pub enum RepoQuestion {
    /// Whether to accept the terms and go on.
    Consent,
    /// Which beta mirror to use.
    BetaMirror,
    /// Which mirror to use.
    Mirror,
    /// The sponsor's support code for the main site.
    SupportCode,
}

/// How a question of the package-source dialogue is asked.
pub enum RepoPrompt {
    Confirm { question: RepoQuestion, default: bool },
    Select { question: RepoQuestion, default: usize },
    Input { question: RepoQuestion },
}

/// What the caller reports back in the package-source dialogue.
pub enum RepoEvent {
    Begin,
    /// The release description, if it could be read.
    File(Option<String>),
    /// The source the repository service names, if it could be had.
    Source(Option<crate::api::repo::RepoSource>),
    Confirmed(bool),
    Selected(usize),
    Text(String),
    /// Whether the address exists.
    Exists(bool),
    /// The outcome of installing the source list from an address: download,
    /// write `/etc/opkg/distfeeds.conf`, `opkg update`.
    Done(Result<(), CatoolsError>),
    /// The prompt itself failed.
    Failed(CatoolsError),
}

/// What the caller is to do next in the package-source dialogue.
pub enum RepoAction {
    /// Read the file; answer with `File`.
    ReadFile(String),
    /// Ask the repository service; answer with `Source`.
    FetchSource { arch: String, version: String },
    /// Ask the user; answer with `Confirmed`, `Selected`, `Text` or `Failed`.
    Ask(RepoPrompt),
    /// Check that the address exists; answer with `Exists`.
    CheckUrl(String),
    /// Install the source list found at the address; answer with `Done`.
    Apply(String),
    /// The dialogue is over, with this outcome.
    Finish(Result<(), CatoolsError>),
}

/// Something to tell the user in the package-source dialogue.
pub enum RepoNotice {
    Heading,
    Release { arch: String, version: String },
    Terms,
    Cancelled,
    BetaOnly,
    ChooseMirror,
    Sponsor,
    InvalidCode,
    Downloading(String),
    HistoryFallback(String),
    UsingFallback,
    Ready,
}

/// Where the package-source dialogue stands.
pub enum RepoState {
    Start,
    AwaitRelease,
    AwaitSource { arch: String, version: String },
    AwaitConsent { arch: String, repo_url: String, beta: bool },
    AwaitMirror { arch: String, repo_url: String, beta: bool },
    AwaitCode { arch: String, repo_url: String },
    AwaitConfUrl { arch: String, conf: String, repo_url: String, conf_url: String },
    AwaitFallbackUrl { conf_url: String, fallback: String },
    AwaitApplied,
    AwaitFallbackApplied,
    Finished,
}

/// The support code that unlocks the main site.
pub open spec fn support_code() -> Seq<char> {
    "cat666"@
}

/// The source list of the beta mirror at position `i` of (netlify, vercel).
pub open spec fn beta_conf(i: nat) -> Seq<char> {
    if i == 0 {
        "netlify.conf"@
    } else {
        "vercel.conf"@
    }
}

/// The source list of the mirror at position `i` of the stable mirrors
/// (position 0, the main site, needs the support code and is handled apart).
pub open spec fn mirror_conf(i: nat) -> Seq<char> {
    if i == 1 {
        "github.conf"@
    } else if i == 2 {
        "cfnetlify.conf"@
    } else if i == 4 {
        "cfvercel.conf"@
    } else if i == 5 {
        "vercel.conf"@
    } else {
        "netlify.conf"@
    }
}

/// The address of the source list `conf` under the source `repo_url`.
pub open spec fn conf_address(repo_url: Seq<char>, conf: Seq<char>) -> Seq<char> {
    trim_end_char(repo_url, '/') + "/"@ + conf
}

/// The default source of the architecture `arch`.
pub open spec fn default_repo(arch: Seq<char>) -> Seq<char> {
    crate::constants::BASE_REPO_URL@ + "/"@ + arch
}

/// A version is a beta when it says so.
pub open spec fn is_beta_version(version: Seq<char>) -> bool {
    crate::text::contains_seq(version, "beta"@) || crate::text::contains_seq(version, "Beta"@)
}

/// The message when no source list exists at `conf_url`.
pub open spec fn missing_conf_message(conf_url: Seq<char>) -> Seq<char> {
    "repo conf 不存在: "@ + conf_url
}

/// `a` asks `q` as a yes/no question, defaulting to `d`.
pub open spec fn repo_confirm(a: RepoAction, q: RepoQuestion, d: bool) -> bool {
    a matches RepoAction::Ask(RepoPrompt::Confirm { question, default }) && question == q
        && default == d
}

/// `a` asks `q` as a choice, defaulting to position `d`.
pub open spec fn repo_select(a: RepoAction, q: RepoQuestion, d: usize) -> bool {
    a matches RepoAction::Ask(RepoPrompt::Select { question, default }) && question == q
        && default == d
}

/// The dialogue checks the source list `conf` under the source `repo_url`.
pub open spec fn to_check(
    n: RepoState,
    ns: Seq<RepoNotice>,
    a: RepoAction,
    arch: Seq<char>,
    repo_url: Seq<char>,
    conf: Seq<char>,
) -> bool {
    let url = conf_address(repo_url, conf);
    &&& n matches RepoState::AwaitConfUrl { arch: x, conf: c, repo_url: r, conf_url: u } && x@
        == arch && c@ == conf && r@ == repo_url && u@ == url
    &&& ns.len() == 1
    &&& ns[0] matches RepoNotice::Downloading(d) && d@ == url
    &&& a matches RepoAction::CheckUrl(v) && v@ == url
}

/// The dialogue reads the release description.
pub open spec fn to_read_release(n: RepoState, a: RepoAction) -> bool {
    &&& n is AwaitRelease
    &&& a matches RepoAction::ReadFile(f) && f@ == crate::constants::RELEASE_FILE@
}

/// The events that the dialogue can take in state `s`.
pub open spec fn repo_accepts(s: RepoState, e: RepoEvent) -> bool {
    match s {
        RepoState::Start => e is Begin,
        RepoState::AwaitRelease => e is File,
        RepoState::AwaitSource { .. } => e is Source,
        RepoState::AwaitConsent { .. } => e is Confirmed || e is Failed,
        RepoState::AwaitMirror { .. } => e is Selected || e is Failed,
        RepoState::AwaitCode { .. } => e is Text || e is Failed,
        RepoState::AwaitConfUrl { .. } => e is Exists,
        RepoState::AwaitFallbackUrl { .. } => e is Exists,
        RepoState::AwaitApplied => e is Done,
        RepoState::AwaitFallbackApplied => e is Done,
        RepoState::Finished => false,
    }
}

/// The step of the package-source dialogue from state `s` on event `e` to
/// state `n`, with notices `ns` and action `a`.
pub open spec fn repo_transition(
    s: RepoState,
    e: RepoEvent,
    n: RepoState,
    ns: Seq<RepoNotice>,
    a: RepoAction,
) -> bool {
    match (s, e) {
        (_, RepoEvent::Failed(err)) => n is Finished && ns.len() == 0 && a == RepoAction::Finish(
            Err(err),
        ),
        (RepoState::Start, _) => ns == seq![RepoNotice::Heading] && to_read_release(n, a),
        (RepoState::AwaitRelease, RepoEvent::File(content)) => {
            let text = match content {
                Some(c) => c@,
                None => crate::modules::release::fallback_release(),
            };
            let arch = match crate::modules::release::release_value(text, "arch"@) {
                Some(v) => v,
                None => "amd64"@,
            };
            let version = match crate::modules::release::release_value(text, "version"@) {
                Some(v) => v,
                None => "v25.8"@,
            };
            &&& n matches RepoState::AwaitSource { arch: x, version: y } && x@ == arch && y@
                == version
            &&& ns.len() == 1
            &&& ns[0] matches RepoNotice::Release { arch: x, version: y } && x@ == arch && y@
                == version
            &&& a matches RepoAction::FetchSource { arch: x, version: y } && x@ == arch && y@
                == version
        },
        (RepoState::AwaitSource { arch, version }, RepoEvent::Source(source)) => {
            let (url, beta) = match source {
                Some(src) => (src.url@, src.beta),
                None => (default_repo(arch@), is_beta_version(version@)),
            };
            &&& n matches RepoState::AwaitConsent { arch: x, repo_url: r, beta: b } && x@
                == arch@ && r@ == url && b == beta
            &&& ns == seq![RepoNotice::Terms]
            &&& repo_confirm(a, RepoQuestion::Consent, true)
        },
        (RepoState::AwaitConsent { .. }, RepoEvent::Confirmed(false)) => n is Finished && ns
            == seq![RepoNotice::Cancelled] && a == RepoAction::Finish(Ok(())),
        (RepoState::AwaitConsent { arch, repo_url, beta }, RepoEvent::Confirmed(true)) => {
            &&& n matches RepoState::AwaitMirror { arch: x, repo_url: r, beta: b } && x@ == arch@
                && r@ == repo_url@ && b == beta
            &&& if beta {
                ns == seq![RepoNotice::BetaOnly] && repo_select(a, RepoQuestion::BetaMirror, 1)
            } else {
                ns == seq![RepoNotice::ChooseMirror] && repo_select(a, RepoQuestion::Mirror, 3)
            }
        },
        (RepoState::AwaitMirror { arch, repo_url, beta }, RepoEvent::Selected(i)) => if beta {
            to_check(n, ns, a, arch@, repo_url@, beta_conf(i as nat))
        } else if i == 0 {
            &&& n matches RepoState::AwaitCode { arch: x, repo_url: r } && x@ == arch@ && r@
                == repo_url@
            &&& ns == seq![RepoNotice::Sponsor]
            &&& a == RepoAction::Ask(RepoPrompt::Input { question: RepoQuestion::SupportCode })
        } else {
            to_check(n, ns, a, arch@, repo_url@, mirror_conf(i as nat))
        },
        (RepoState::AwaitCode { arch, repo_url }, RepoEvent::Text(code)) => if code@
            == support_code() {
            to_check(n, ns, a, arch@, repo_url@, "distfeeds.conf"@)
        } else {
            ns == seq![RepoNotice::InvalidCode, RepoNotice::Heading] && to_read_release(n, a)
        },
        (RepoState::AwaitConfUrl { conf_url, .. }, RepoEvent::Exists(true)) => {
            &&& n is AwaitApplied
            &&& ns.len() == 0
            &&& a matches RepoAction::Apply(u) && u@ == conf_url@
        },
        (RepoState::AwaitConfUrl { arch, conf, repo_url, conf_url }, RepoEvent::Exists(false)) => {
            if crate::text::contains_seq(repo_url@, "/history/"@) {
                let fallback = default_repo(arch@) + "/"@ + conf@;
                &&& n matches RepoState::AwaitFallbackUrl { conf_url: c, fallback: f } && c@
                    == conf_url@ && f@ == fallback
                &&& ns.len() == 1
                &&& ns[0] matches RepoNotice::HistoryFallback(f) && f@ == fallback
                &&& a matches RepoAction::CheckUrl(u) && u@ == fallback
            } else {
                &&& n is Finished
                &&& ns.len() == 0
                &&& a matches RepoAction::Finish(Err(CatoolsError::ApiError(m))) && m@
                    == missing_conf_message(conf_url@)
            }
        },
        (RepoState::AwaitFallbackUrl { fallback, .. }, RepoEvent::Exists(true)) => {
            &&& n is AwaitFallbackApplied
            &&& ns == seq![RepoNotice::UsingFallback]
            &&& a matches RepoAction::Apply(u) && u@ == fallback@
        },
        (RepoState::AwaitFallbackUrl { conf_url, .. }, RepoEvent::Exists(false)) => {
            &&& n is Finished
            &&& ns.len() == 0
            &&& a matches RepoAction::Finish(Err(CatoolsError::ApiError(m))) && m@
                == missing_conf_message(conf_url@)
        },
        (RepoState::AwaitApplied, RepoEvent::Done(Ok(()))) => n is Finished && ns == seq![
            RepoNotice::Ready,
        ] && a == RepoAction::Finish(Ok(())),
        (RepoState::AwaitApplied, RepoEvent::Done(Err(err))) => n is Finished && ns.len() == 0
            && a == RepoAction::Finish(Err(err)),
        (RepoState::AwaitFallbackApplied, RepoEvent::Done(r)) => n is Finished && ns.len() == 0
            && a == RepoAction::Finish(r),
        _ => false,
    }
}

/// A notice list of one notice.
fn one_notice(n: RepoNotice) -> (r: Vec<RepoNotice>)
    ensures
        r@ == seq![n],
{
    let mut r: Vec<RepoNotice> = Vec::new();
    r.push(n);
    r
}

/// The check of the source list `conf` under the source `repo_url`.
fn check_conf(arch: String, repo_url: String, conf: &str) -> (r: (
    RepoState,
    Vec<RepoNotice>,
    RepoAction,
))
    ensures
        to_check(r.0, r.1@, r.2, arch@, repo_url@, conf@),
{
    let base = trim_end_char_str(repo_url.as_str(), '/');
    let mut url = base;
    url.append("/");
    url.append(conf);
    let u2 = url.clone();
    let u3 = url.clone();
    (
        RepoState::AwaitConfUrl { arch, conf: String::from_str(conf), repo_url, conf_url: url },
        one_notice(RepoNotice::Downloading(u2)),
        RepoAction::CheckUrl(u3),
    )
}

/// The start, or a restart, of the dialogue: read the release description.
fn read_release_file() -> (a: RepoAction)
    ensures
        a matches RepoAction::ReadFile(f) && f@ == crate::constants::RELEASE_FILE@,
{
    RepoAction::ReadFile(String::from_str(crate::constants::RELEASE_FILE))
}

/// One step of the package-source dialogue.
///
/// It reads the architecture and version from the release description,
/// asks the repository service for their source (else the default source of
/// the architecture, beta when the version says so), asks the user to accept
/// the terms, then to choose a mirror: on the beta channel netlify or vercel;
/// otherwise one of six, the first (the main site) only with the support code
/// (a wrong code starts the dialogue over). It installs the chosen source
/// list if its address exists; for a historical source whose list is
/// missing it falls back to the default source of the architecture.
pub fn apply_repo(s: RepoState, e: RepoEvent) -> (r: (RepoState, Vec<RepoNotice>, RepoAction))
    requires
        repo_accepts(s, e),
    ensures
        repo_transition(s, e, r.0, r.1@, r.2),
{
    if let RepoEvent::Failed(err) = e {
        return (RepoState::Finished, Vec::new(), RepoAction::Finish(Err(err)));
    }
    let fin = RepoState::Finished;
    match s {
        RepoState::Start => (RepoState::AwaitRelease, one_notice(RepoNotice::Heading), read_release_file()),
        RepoState::AwaitRelease => match e {
            RepoEvent::File(content) => {
                let text = crate::modules::release::release_or_fallback(content);
                let arch = crate::modules::release::release_arch(text.as_str());
                let version = crate::modules::release::release_version(text.as_str());
                let notice = RepoNotice::Release { arch: arch.clone(), version: version.clone() };
                let action = RepoAction::FetchSource { arch: arch.clone(), version: version.clone() };
                (RepoState::AwaitSource { arch, version }, one_notice(notice), action)
            },
            _ => {
                proof {
                    assert(false);
                }
                (fin, Vec::new(), RepoAction::Finish(Ok(())))
            },
        },
        RepoState::AwaitSource { arch, version } => match e {
            RepoEvent::Source(source) => {
                let (repo_url, beta) = match source {
                    Some(src) => (src.url, src.beta),
                    None => {
                        let mut u = String::from_str(crate::constants::BASE_REPO_URL);
                        u.append("/");
                        u.append(arch.as_str());
                        let b = crate::text::contains_str(version.as_str(), "beta")
                            || crate::text::contains_str(version.as_str(), "Beta");
                        (u, b)
                    },
                };
                (
                    RepoState::AwaitConsent { arch, repo_url, beta },
                    one_notice(RepoNotice::Terms),
                    RepoAction::Ask(RepoPrompt::Confirm { question: RepoQuestion::Consent, default: true }),
                )
            },
            _ => {
                proof {
                    assert(false);
                }
                (fin, Vec::new(), RepoAction::Finish(Ok(())))
            },
        },
        RepoState::AwaitConsent { arch, repo_url, beta } => match e {
            RepoEvent::Confirmed(yes) => {
                if !yes {
                    (fin, one_notice(RepoNotice::Cancelled), RepoAction::Finish(Ok(())))
                } else if beta {
                    (
                        RepoState::AwaitMirror { arch, repo_url, beta },
                        one_notice(RepoNotice::BetaOnly),
                        RepoAction::Ask(RepoPrompt::Select { question: RepoQuestion::BetaMirror, default: 1 }),
                    )
                } else {
                    (
                        RepoState::AwaitMirror { arch, repo_url, beta },
                        one_notice(RepoNotice::ChooseMirror),
                        RepoAction::Ask(RepoPrompt::Select { question: RepoQuestion::Mirror, default: 3 }),
                    )
                }
            },
            _ => {
                proof {
                    assert(false);
                }
                (fin, Vec::new(), RepoAction::Finish(Ok(())))
            },
        },
        RepoState::AwaitMirror { arch, repo_url, beta } => match e {
            RepoEvent::Selected(i) => {
                if beta {
                    let conf = if i == 0 {
                        "netlify.conf"
                    } else {
                        "vercel.conf"
                    };
                    check_conf(arch, repo_url, conf)
                } else if i == 0 {
                    (
                        RepoState::AwaitCode { arch, repo_url },
                        one_notice(RepoNotice::Sponsor),
                        RepoAction::Ask(RepoPrompt::Input { question: RepoQuestion::SupportCode }),
                    )
                } else {
                    let conf = match i {
                        1 => "github.conf",
                        2 => "cfnetlify.conf",
                        4 => "cfvercel.conf",
                        5 => "vercel.conf",
                        _ => "netlify.conf",
                    };
                    check_conf(arch, repo_url, conf)
                }
            },
            _ => {
                proof {
                    assert(false);
                }
                (fin, Vec::new(), RepoAction::Finish(Ok(())))
            },
        },
        RepoState::AwaitCode { arch, repo_url } => match e {
            RepoEvent::Text(code) => {
                if str_eq(code.as_str(), "cat666") {
                    check_conf(arch, repo_url, "distfeeds.conf")
                } else {
                    let mut ns = one_notice(RepoNotice::InvalidCode);
                    ns.push(RepoNotice::Heading);
                    assert(ns@ =~= seq![RepoNotice::InvalidCode, RepoNotice::Heading]);
                    (RepoState::AwaitRelease, ns, read_release_file())
                }
            },
            _ => {
                proof {
                    assert(false);
                }
                (fin, Vec::new(), RepoAction::Finish(Ok(())))
            },
        },
        RepoState::AwaitConfUrl { arch, conf, repo_url, conf_url } => match e {
            RepoEvent::Exists(yes) => {
                if yes {
                    (RepoState::AwaitApplied, Vec::new(), RepoAction::Apply(conf_url))
                } else if crate::text::contains_str(repo_url.as_str(), "/history/") {
                    let mut fallback = String::from_str(crate::constants::BASE_REPO_URL);
                    fallback.append("/");
                    fallback.append(arch.as_str());
                    fallback.append("/");
                    fallback.append(conf.as_str());
                    let f2 = fallback.clone();
                    let f3 = fallback.clone();
                    (
                        RepoState::AwaitFallbackUrl { conf_url, fallback },
                        one_notice(RepoNotice::HistoryFallback(f2)),
                        RepoAction::CheckUrl(f3),
                    )
                } else {
                    let mut m = String::from_str("repo conf 不存在: ");
                    m.append(conf_url.as_str());
                    (fin, Vec::new(), RepoAction::Finish(Err(CatoolsError::ApiError(m))))
                }
            },
            _ => {
                proof {
                    assert(false);
                }
                (fin, Vec::new(), RepoAction::Finish(Ok(())))
            },
        },
        RepoState::AwaitFallbackUrl { conf_url, fallback } => match e {
            RepoEvent::Exists(yes) => {
                if yes {
                    (
                        RepoState::AwaitFallbackApplied,
                        one_notice(RepoNotice::UsingFallback),
                        RepoAction::Apply(fallback),
                    )
                } else {
                    let mut m = String::from_str("repo conf 不存在: ");
                    m.append(conf_url.as_str());
                    (fin, Vec::new(), RepoAction::Finish(Err(CatoolsError::ApiError(m))))
                }
            },
            _ => {
                proof {
                    assert(false);
                }
                (fin, Vec::new(), RepoAction::Finish(Ok(())))
            },
        },
        RepoState::AwaitApplied => match e {
            RepoEvent::Done(Ok(())) => (fin, one_notice(RepoNotice::Ready), RepoAction::Finish(Ok(()))),
            RepoEvent::Done(Err(err)) => (fin, Vec::new(), RepoAction::Finish(Err(err))),
            _ => {
                proof {
                    assert(false);
                }
                (fin, Vec::new(), RepoAction::Finish(Ok(())))
            },
        },
        RepoState::AwaitFallbackApplied => match e {
            RepoEvent::Done(r) => (fin, Vec::new(), RepoAction::Finish(r)),
            _ => {
                proof {
                    assert(false);
                }
                (fin, Vec::new(), RepoAction::Finish(Ok(())))
            },
        },
        RepoState::Finished => {
            proof {
                assert(false);
            }
            (fin, Vec::new(), RepoAction::Finish(Ok(())))
        },
    }
}

// ---------------------------------------------------------------------------
// Laws of the package-source dialogue
// ---------------------------------------------------------------------------

/// The dialogue stops exactly when it says it is over.
pub proof fn lemma_repo_stops_when_finished(
    s: RepoState,
    e: RepoEvent,
    n: RepoState,
    ns: Seq<RepoNotice>,
    a: RepoAction,
)
    requires
        repo_transition(s, e, n, ns, a),
    ensures
        a is Finish <==> n is Finished,
{
}

/// A source list is installed only from an address whose existence was
/// just confirmed: the chosen list, or the fallback of a historical source.
pub proof fn lemma_repo_applies_only_existing(
    s: RepoState,
    e: RepoEvent,
    n: RepoState,
    ns: Seq<RepoNotice>,
    a: RepoAction,
)
    requires
        repo_transition(s, e, n, ns, a),
        a is Apply,
    ensures
        e == RepoEvent::Exists(true),
        (s matches RepoState::AwaitConfUrl { conf_url, .. } && a matches RepoAction::Apply(u)
            && u@ == conf_url@) || (s matches RepoState::AwaitFallbackUrl { fallback, .. }
            && a matches RepoAction::Apply(u) && u@ == fallback@),
{
}

/// The main site's source list is chosen only with the support code.
pub proof fn lemma_repo_main_site_needs_code(
    s: RepoState,
    e: RepoEvent,
    n: RepoState,
    ns: Seq<RepoNotice>,
    a: RepoAction,
)
    requires
        repo_transition(s, e, n, ns, a),
        n matches RepoState::AwaitConfUrl { conf, .. } && conf@ == "distfeeds.conf"@,
    ensures
        s is AwaitCode,
        e matches RepoEvent::Text(code) && code@ == support_code(),
{
    reveal_strlit("distfeeds.conf");
    reveal_strlit("netlify.conf");
    reveal_strlit("vercel.conf");
    reveal_strlit("github.conf");
    reveal_strlit("cfnetlify.conf");
    reveal_strlit("cfvercel.conf");
    assert("distfeeds.conf"@[0] == 'd');
    assert("netlify.conf"@[0] == 'n');
    assert("vercel.conf"@[0] == 'v');
    assert("github.conf"@[0] == 'g');
    assert("cfnetlify.conf"@[0] == 'c');
    assert("cfvercel.conf"@[0] == 'c');
}

} // verus!
