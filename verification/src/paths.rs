//! Where Starail keeps its state: everything lives under one home directory
//! (`~/.starail` unless `STARAIL_HOME` names another).
use vstd::prelude::*;
use vstd::string::StringExecFns;
use crate::text::{chars_of, concat2, owned, string_from};

verus! {

#[derive(Debug, Clone)]
pub struct StarailPaths {
    pub home: String,
    pub config_file: String,
    pub bin_dir: String,
    pub profile_dir: String,
    pub runtime_dir: String,
    pub run_dir: String,
    pub log_dir: String,
    pub tmp_dir: String,
    pub core_file: String,
    pub pid_file: String,
    pub log_file: String,
}

/// `Path::join` on Unix for a relative or absolute `name`: an absolute name
/// replaces the base; otherwise a `/` separates them unless the base is empty
/// or already ends with one.
pub open spec fn path_join(base: Seq<char>, name: Seq<char>) -> Seq<char> {
    if name.len() > 0 && name[0] == '/' {
        name
    } else if base.len() == 0 || base.last() == '/' {
        base + name
    } else {
        base + seq!['/'] + name
    }
}

/// `base.join(name)`.
pub fn join(base: &str, name: &str) -> (r: String)
    ensures
        r@ == path_join(base@, name@),
{
    let b = chars_of(base);
    let n = chars_of(name);
    if n.len() > 0 && n[0] == '/' {
        owned(name)
    } else if b.len() == 0 || b[b.len() - 1] == '/' {
        concat2(base, name)
    } else {
        let mut r = owned(base);
        crate::text::push_char(&mut r, '/');
        r.concat(name)
    }
}

/// The layout under a home directory.
pub open spec fn paths_under(home: Seq<char>, p: StarailPaths) -> bool {
    let bin = path_join(home, "bin"@);
    let run = path_join(home, "run"@);
    let log = path_join(home, "logs"@);
    &&& p.home@ == home
    &&& p.config_file@ == path_join(home, "config.yaml"@)
    &&& p.bin_dir@ == bin
    &&& p.profile_dir@ == path_join(home, "profiles"@)
    &&& p.runtime_dir@ == path_join(home, "runtime"@)
    &&& p.run_dir@ == run
    &&& p.log_dir@ == log
    &&& p.tmp_dir@ == path_join(home, "tmp"@)
    &&& p.core_file@ == path_join(bin, "mihomo"@)
    &&& p.pid_file@ == path_join(run, "mihomo.pid"@)
    &&& p.log_file@ == path_join(log, "mihomo.log"@)
}

/// The home directory: `STARAIL_HOME` when it is set and not empty, else
/// `.starail` under the user's home; `None` when neither is available.
pub open spec fn home_dir(starail_home: Option<Seq<char>>, user_home: Option<Seq<char>>) -> Option<
    Seq<char>,
> {
    match starail_home {
        Some(h) if h.len() > 0 => Some(h),
        _ => match user_home {
            Some(u) if u.len() > 0 => Some(path_join(u, ".starail"@)),
            _ => None,
        },
    }
}

fn nonempty(o: Option<&str>) -> (r: Option<&str>)
    ensures
        match o {
            Some(s) if s@.len() > 0 => r == Some(s),
            _ => r is None,
        },
{
    match o {
        Some(s) => {
            let cs = chars_of(s);
            if cs.len() > 0 {
                Some(s)
            } else {
                None
            }
        },
        None => None,
    }
}

impl StarailPaths {
    /// The layout under `home`.
    pub fn under(home: &str) -> (r: StarailPaths)
        ensures
            paths_under(home@, r),
    {
        let bin_dir = join(home, "bin");
        let run_dir = join(home, "run");
        let log_dir = join(home, "logs");
        StarailPaths {
            home: owned(home),
            config_file: join(home, "config.yaml"),
            core_file: join(bin_dir.as_str(), "mihomo"),
            pid_file: join(run_dir.as_str(), "mihomo.pid"),
            log_file: join(log_dir.as_str(), "mihomo.log"),
            bin_dir,
            profile_dir: join(home, "profiles"),
            runtime_dir: join(home, "runtime"),
            run_dir,
            log_dir,
            tmp_dir: join(home, "tmp"),
        }
    }

    /// The layout for the values of `STARAIL_HOME` and `HOME`; an error when
    /// no home directory can be found.
    pub fn new(starail_home: Option<&str>, user_home: Option<&str>) -> (r: Result<
        StarailPaths,
        String,
    >)
        ensures
            match r {
                Ok(p) => home_dir(
                    match starail_home {
                        Some(h) => Some(h@),
                        None => None,
                    },
                    match user_home {
                        Some(u) => Some(u@),
                        None => None,
                    },
                ) == Some(p.home@) && paths_under(p.home@, p),
                Err(e) => home_dir(
                    match starail_home {
                        Some(h) => Some(h@),
                        None => None,
                    },
                    match user_home {
                        Some(u) => Some(u@),
                        None => None,
                    },
                ) is None && e@ == "HOME is required"@,
            },
    {
        match nonempty(starail_home) {
            Some(h) => Ok(StarailPaths::under(h)),
            None => match nonempty(user_home) {
                Some(u) => {
                    let home = join(u, ".starail");
                    Ok(StarailPaths::under(home.as_str()))
                },
                None => Err(owned("HOME is required")),
            },
        }
    }

    /// The config file of a profile: `<name>.yaml` in the profile directory.
    pub fn profile_config_path(&self, name: &str) -> (r: String)
        ensures
            r@ == path_join(self.profile_dir@, name@ + ".yaml"@),
    {
        let file = concat2(name, ".yaml");
        join(self.profile_dir.as_str(), file.as_str())
    }

    /// The metadata file of a profile: `<name>.meta` in the profile directory.
    pub fn profile_meta_path(&self, name: &str) -> (r: String)
        ensures
            r@ == path_join(self.profile_dir@, name@ + ".meta"@),
    {
        let file = concat2(name, ".meta");
        join(self.profile_dir.as_str(), file.as_str())
    }

    /// The runtime config that mihomo is started with.
    pub fn runtime_config_path(&self) -> (r: String)
        ensures
            r@ == path_join(self.runtime_dir@, "config.yaml"@),
    {
        join(self.runtime_dir.as_str(), "config.yaml")
    }

    /// Every directory that Starail creates, in creation order.
    pub fn dirs(&self) -> (r: Vec<String>)
        ensures
            r@ == seq![
                self.home,
                self.bin_dir,
                self.profile_dir,
                self.runtime_dir,
                self.run_dir,
                self.log_dir,
                self.tmp_dir,
            ],
    {
        let mut r = Vec::new();
        r.push(self.home.clone());
        r.push(self.bin_dir.clone());
        r.push(self.profile_dir.clone());
        r.push(self.runtime_dir.clone());
        r.push(self.run_dir.clone());
        r.push(self.log_dir.clone());
        r.push(self.tmp_dir.clone());
        r
    }
}

/// The text of a path for display.
pub fn display_path(path: &str) -> (r: String)
    ensures
        r@ == path@,
{
    owned(path)
}

// ---------------------------------------------------------------------
// The search path
// ---------------------------------------------------------------------

/// A text split at every `c` (`slice::split`): one piece more than there
/// are `c`s, empty pieces included.
pub open spec fn split_on(s: Seq<char>, c: char) -> Seq<Seq<char>>
    decreases s.len(),
{
    match crate::text::index_of_char(s, c) {
        Some(i) => {
            proof {
                crate::text::lemma_index_of_char_found(s, c);
            }
            seq![s.take(i)] + split_on(s.skip(i + 1), c)
        },
        None => seq![s],
    }
}

/// Where a program is looked for: each entry of a `PATH` value (split at
/// `:`, as `std::env::split_paths` does on Unix) joined with its name, in
/// order.
pub open spec fn search_candidates(path_var: Seq<char>, program: Seq<char>) -> Seq<Seq<char>> {
    split_on(path_var, ':').map_values(|d: Seq<char>| path_join(d, program))
}

/// The places a program is looked for, in the order of the `PATH` value.
pub fn path_candidates(path_var: &str, program: &str) -> (r: Vec<String>)
    ensures
        crate::lines::views(r@) == search_candidates(path_var@, program@),
{
    let cs = chars_of(path_var);
    let mut r: Vec<String> = Vec::new();
    let mut start: usize = 0;
    let mut i: usize = 0;
    proof {
        assert(cs@.skip(0) =~= cs@);
        let all = split_on(cs@, ':').map_values(|d: Seq<char>| path_join(d, program@));
        assert(crate::lines::views(r@) + all =~= all);
    }
    while i < cs.len()
        invariant
            cs@ == path_var@,
            start <= i <= cs@.len(),
            forall|k: int| start <= k < i ==> #[trigger] cs@[k] != ':',
            crate::lines::views(r@) + split_on(cs@.skip(start as int), ':').map_values(
                |d: Seq<char>| path_join(d, program@),
            ) == search_candidates(path_var@, program@),
        decreases cs@.len() - i,
    {
        if cs[i] == ':' {
            let ghost rest = cs@.skip(start as int);
            proof {
                assert forall|k: int| 0 <= k < i - start implies #[trigger] rest[k] != ':' by {
                    assert(rest[k] == cs@[start + k]);
                }
                crate::text::lemma_index_of_char(rest, ':', i - start);
                assert(rest.take(i - start) =~= cs@.subrange(start as int, i as int));
                assert(rest.skip(i - start + 1) =~= cs@.skip(i + 1));
            }
            let piece = string_from(&cs, start, i);
            let candidate = join(piece.as_str(), program);
            let ghost before = r@;
            let ghost tail = split_on(cs@.skip(i + 1), ':');
            r.push(candidate);
            proof {
                assert(crate::lines::views(r@) =~= crate::lines::views(before).push(candidate@));
                assert(split_on(rest, ':') == seq![piece@] + tail);
                assert((seq![piece@] + tail).map_values(|d: Seq<char>| path_join(d, program@))
                    =~= seq![path_join(piece@, program@)] + tail.map_values(
                    |d: Seq<char>| path_join(d, program@),
                ));
                assert(crate::lines::views(r@) + tail.map_values(
                    |d: Seq<char>| path_join(d, program@),
                ) =~= crate::lines::views(before) + (seq![path_join(piece@, program@)]
                    + tail.map_values(|d: Seq<char>| path_join(d, program@))));
            }
            start = i + 1;
        }
        i += 1;
    }
    let ghost rest = cs@.skip(start as int);
    proof {
        assert forall|k: int| 0 <= k < rest.len() implies #[trigger] rest[k] != ':' by {
            assert(rest[k] == cs@[start + k]);
        }
        crate::text::lemma_index_of_char(rest, ':', rest.len() as int);
        assert(rest =~= cs@.subrange(start as int, cs@.len() as int));
    }
    let piece = string_from(&cs, start, cs.len());
    let candidate = join(piece.as_str(), program);
    let ghost before = r@;
    r.push(candidate);
    proof {
        assert(crate::lines::views(r@) =~= crate::lines::views(before).push(candidate@));
        assert(split_on(rest, ':') == seq![piece@]);
        assert(seq![piece@].map_values(|d: Seq<char>| path_join(d, program@)) =~= seq![
            path_join(piece@, program@),
        ]);
        assert(crate::lines::views(r@) =~= crate::lines::views(before) + seq![
            path_join(piece@, program@),
        ]);
    }
    r
}

/// The first of the candidates that was found executable, in order.
pub open spec fn first_executable_of(cs: Seq<(Seq<char>, bool)>) -> Option<Seq<char>>
    decreases cs.len(),
{
    if cs.len() == 0 {
        None
    } else if cs[0].1 {
        Some(cs[0].0)
    } else {
        first_executable_of(cs.drop_first())
    }
}

/// Candidates with whether each was found executable, as plain values.
pub open spec fn checked_views(cs: Seq<(String, bool)>) -> Seq<(Seq<char>, bool)> {
    cs.map_values(|e: (String, bool)| (e.0@, e.1))
}

/// The first candidate, in order, that was found executable.
pub fn first_executable(candidates: &Vec<(String, bool)>) -> (r: Option<String>)
    ensures
        match r {
            Some(p) => first_executable_of(checked_views(candidates@)) == Some(p@),
            None => first_executable_of(checked_views(candidates@)) is None,
        },
{
    let mut i: usize = 0;
    assert(checked_views(candidates@).skip(0) =~= checked_views(candidates@));
    while i < candidates.len()
        invariant
            i <= candidates@.len(),
            first_executable_of(checked_views(candidates@)) == first_executable_of(
                checked_views(candidates@).skip(i as int),
            ),
        decreases candidates@.len() - i,
    {
        let ghost rest = checked_views(candidates@).skip(i as int);
        assert(rest[0] == (candidates@[i as int].0@, candidates@[i as int].1));
        assert(rest.drop_first() =~= checked_views(candidates@).skip(i + 1));
        if candidates[i].1 {
            return Some(candidates[i].0.clone());
        }
        i += 1;
    }
    assert(checked_views(candidates@).skip(i as int).len() == 0);
    None
}

} // verus!
