//! The configuration of the module: an optional log file and the slots
//! (NetHSM servers) it offers, read from one or more configuration files
//! and merged.
use vstd::prelude::*;
use vstd::string::StrSliceExecFns;

verus! {

/// The name of a configuration file.
pub const CONFIG_FILE_NAME: &'static str = "p11nethsm.conf";

/// The prefix of a password that names an environment variable holding the
/// password.
pub const PASSWORD_ENV_PREFIX: &'static str = "env:";

/// A slot: one NetHSM server and the user to log in as.
#[derive(Debug, Clone)]
pub struct SlotConfig {
    pub label: String,
    pub description: Option<String>,
    pub url: String,
    pub user: String,
    pub password: String,
}

/// The configuration: an optional log file and the slots.
#[derive(Debug, Clone)]
pub struct P11Config {
    pub log_file: Option<String>,
    pub slots: Vec<SlotConfig>,
}

/// What a slot holds.
pub struct SlotConfigView {
    pub label: Seq<char>,
    pub description: Option<Seq<char>>,
    pub url: Seq<char>,
    pub user: Seq<char>,
    pub password: Seq<char>,
}

/// What a configuration holds.
pub struct P11ConfigView {
    pub log_file: Option<Seq<char>>,
    pub slots: Seq<SlotConfigView>,
}

/// The view of an optional string.
pub open spec fn opt_view(s: Option<String>) -> Option<Seq<char>> {
    match s {
        Some(v) => Some(v@),
        None => None,
    }
}

impl View for SlotConfig {
    type V = SlotConfigView;

    open spec fn view(&self) -> SlotConfigView {
        SlotConfigView {
            label: self.label@,
            description: opt_view(self.description),
            url: self.url@,
            user: self.user@,
            password: self.password@,
        }
    }
}

impl View for P11Config {
    type V = P11ConfigView;

    open spec fn view(&self) -> P11ConfigView {
        P11ConfigView {
            log_file: opt_view(self.log_file),
            slots: self.slots@.map_values(|s: SlotConfig| s@),
        }
    }
}

/// The empty configuration: no log file, no slots.
pub open spec fn empty_config() -> P11ConfigView {
    P11ConfigView { log_file: None, slots: Seq::empty() }
}

/// `a` merged with `b`: the log file of `a`, or of `b` where `a` names
/// none, and the slots of `a` followed by those of `b`.
pub open spec fn merged(a: P11ConfigView, b: P11ConfigView) -> P11ConfigView {
    P11ConfigView {
        log_file: if a.log_file is Some { a.log_file } else { b.log_file },
        slots: a.slots + b.slots,
    }
}

/// The configurations `cs` merged, in order, into the empty one.
pub open spec fn merged_all(cs: Seq<P11ConfigView>) -> P11ConfigView
    decreases cs.len(),
{
    if cs.len() == 0 {
        empty_config()
    } else {
        merged(merged_all(cs.drop_last()), cs.last())
    }
}

impl Default for P11Config {
    fn default() -> (r: P11Config)
        ensures
            r@ == empty_config(),
    {
        let r = P11Config { log_file: None, slots: Vec::new() };
        assert(r@.slots =~= Seq::<SlotConfigView>::empty());
        r
    }
}

impl P11Config {
    /// Merges `other` into this configuration: the log file stays where one
    /// is set and is taken from `other` otherwise; the slots of `other` are
    /// appended.
    pub fn merge(&mut self, other: P11Config)
        ensures
            final(self)@ == merged(old(self)@, other@),
    {
        let mut other = other;
        if self.log_file.is_none() {
            self.log_file = other.log_file;
        }
        let ghost a = self.slots@;
        let ghost b = other.slots@;
        self.slots.append(&mut other.slots);
        assert(self.slots@ == a + b);
        assert(self.slots@.map_values(|s: SlotConfig| s@) =~= a.map_values(|s: SlotConfig| s@)
            + b.map_values(|s: SlotConfig| s@));
    }
}

/// The configuration that the configuration files `found`, read in order,
/// give, or `None` where no file was read.
pub fn combine_configs(found: Vec<P11Config>) -> (r: Option<P11Config>)
    ensures
        found@.len() == 0 ==> r is None,
        found@.len() > 0 ==> (r matches Some(c) && c@ == merged_all(
            found@.map_values(|c: P11Config| c@),
        )),
{
    if found.len() == 0 {
        return None;
    }
    let ghost views = found@.map_values(|c: P11Config| c@);
    let mut config = P11Config::default();
    let mut found = found;
    let ghost all = found@;
    let mut i: usize = 0;
    let n = found.len();
    while i < n
        invariant
            0 <= i <= n,
            n == all.len(),
            views == all.map_values(|c: P11Config| c@),
            found@ == all.skip(i as int),
            config@ == merged_all(views.take(i as int)),
        decreases n - i,
    {
        let next = found.remove(0);
        assert(next == all[i as int]);
        config.merge(next);
        assert(views.take(i + 1).drop_last() =~= views.take(i as int));
        assert(found@ =~= all.skip(i + 1));
        i = i + 1;
    }
    assert(views.take(n as int) =~= views);
    Some(config)
}

/// The configuration folders: the system-wide ones, then the one in the
/// home directory `home`, if one is known.
pub open spec fn config_folders(home: Option<Seq<char>>) -> Seq<Seq<char>> {
    let system = seq!["/etc/nitrokey"@, "/usr/local/etc/nitrokey"@];
    match home {
        Some(h) => system.push(h + "/.config/nitrokey"@),
        None => system,
    }
}

/// The configuration files to read, in order: the file `CONFIG_FILE_NAME` in
/// each configuration folder.
pub fn config_file_candidates(home: Option<&str>) -> (r: Vec<String>)
    ensures
        r@.map_values(|s: String| s@) == config_folders(
            match home {
                Some(h) => Some(h@),
                None => None,
            },
        ).map_values(|f: Seq<char>| f + "/"@ + CONFIG_FILE_NAME@),
{
    let mut folders: Vec<String> = Vec::new();
    folders.push("/etc/nitrokey".to_owned());
    folders.push("/usr/local/etc/nitrokey".to_owned());
    match home {
        Some(h) => {
            let mut f = h.to_owned();
            f.append("/.config/nitrokey");
            folders.push(f);
        },
        None => {},
    }
    let ghost fs = folders@.map_values(|s: String| s@);
    assert(fs =~= config_folders(
        match home {
            Some(h) => Some(h@),
            None => None,
        },
    ));
    let mut out: Vec<String> = Vec::new();
    let mut i: usize = 0;
    while i < folders.len()
        invariant
            0 <= i <= folders@.len(),
            fs == folders@.map_values(|s: String| s@),
            out@.len() == i,
            out@.map_values(|s: String| s@) == fs.take(i as int).map_values(
                |f: Seq<char>| f + "/"@ + CONFIG_FILE_NAME@,
            ),
        decreases folders@.len() - i,
    {
        let ghost prev = out@;
        let mut p = folders[i].clone();
        assert(p@ == fs[i as int]);
        p.append("/");
        p.append(CONFIG_FILE_NAME);
        assert(p@ == fs[i as int] + "/"@ + CONFIG_FILE_NAME@);
        out.push(p);
        assert(out@ == prev.push(p));
        assert forall|k: int| 0 <= k < i implies #[trigger] out@[k]@ == fs[k] + "/"@ + CONFIG_FILE_NAME@ by {
            assert(out@[k] == prev[k]);
            assert(prev.map_values(|s: String| s@)[k] == fs.take(i as int).map_values(
                |f: Seq<char>| f + "/"@ + CONFIG_FILE_NAME@)[k]);
        }
        assert(out@.map_values(|s: String| s@) =~= fs.take(i + 1).map_values(
            |f: Seq<char>| f + "/"@ + CONFIG_FILE_NAME@,
        ));
        i = i + 1;
    }
    assert(fs.take(folders@.len() as int) =~= fs);
    out
}

/// Whether `p` occurs in `s` at character position `at`.
fn occurs_at(s: &str, p: &str, at: usize) -> (r: bool)
    requires
        at <= s@.len(),
    ensures
        r == p@.is_prefix_of(s@.skip(at as int)),
{
    let n = s.unicode_len();
    let m = p.unicode_len();
    if m > n - at {
        return false;
    }
    let mut j: usize = 0;
    while j < m
        invariant
            0 <= j <= m,
            m == p@.len(),
            n == s@.len(),
            at + m <= n,
            forall|k: int| 0 <= k < j ==> p@[k] == s@[at + k],
        decreases m - j,
    {
        if p.get_char(j) != s.get_char(at + j) {
            assert(p@[j as int] != s@.skip(at as int)[j as int]);
            return false;
        }
        j = j + 1;
    }
    assert(p@ =~= s@.skip(at as int).subrange(0, m as int));
    true
}

/// The name of the environment variable that a configured password
/// refers to: where the password starts with `env:`, the rest of the
/// password after that prefix; `None` where it is a plain password.
pub fn password_env_var(password: &str) -> (r: Option<String>)
    ensures
        !PASSWORD_ENV_PREFIX@.is_prefix_of(password@) ==> r is None,
        PASSWORD_ENV_PREFIX@.is_prefix_of(password@) ==> (r matches Some(v) && v@
            == password@.skip(PASSWORD_ENV_PREFIX@.len() as int)),
        r matches Some(v) ==> PASSWORD_ENV_PREFIX@ + v@ == password@,
{
    let prefix = PASSWORD_ENV_PREFIX;
    if !occurs_at(password, prefix, 0) {
        assert(password@.skip(0) =~= password@);
        return None;
    }
    assert(password@.skip(0) =~= password@);
    let n = password.unicode_len();
    let m = prefix.unicode_len();
    let rest = password.substring_char(m, n);
    assert(rest@ =~= password@.skip(m as int));
    assert(prefix@ + rest@ =~= password@);
    Some(rest.to_owned())
}

} // verus!
