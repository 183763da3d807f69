use vstd::prelude::*;
use crate::error::EchoError;
use crate::text::{
    decimal, digits_value, lemma_decimal_parses, lemma_split_without_separator, parse_u32, parse_u32_spec, push_decimal, split_on,
    split_str, string_views,
};

verus! {

/// Descriptor number of the first passed socket: the three standard I/O
/// descriptors come before it.
pub const LISTEN_FDS_START: i32 = 3;

/// Largest number of passed descriptors whose numbers all fit in an `i32`.
pub const MAX_LISTEN_FDS: u32 = 0x7fff_fffd;

/// One inherited descriptor and the service name it was passed under.
#[derive(Debug, Clone)]
pub struct InheritedFd {
    pub name: String,
    pub fd: i32,
}

/// The name-to-descriptor mapping of a list of entries, inserted in order,
/// a later entry replacing an earlier one of the same name.
pub open spec fn entries_map(entries: Seq<InheritedFd>) -> Map<Seq<char>, i32>
    decreases entries.len(),
{
    if entries.len() == 0 {
        Map::empty()
    } else {
        entries_map(entries.drop_last()).insert(entries.last().name@, entries.last().fd)
    }
}

/// The descriptor passed under `name`, looking from the latest entry back.
pub open spec fn entries_lookup(entries: Seq<InheritedFd>, name: Seq<char>) -> Option<i32>
    decreases entries.len(),
{
    if entries.len() == 0 {
        None
    } else if entries.last().name@ == name {
        Some(entries.last().fd)
    } else {
        entries_lookup(entries.drop_last(), name)
    }
}

proof fn lemma_lookup_is_map(entries: Seq<InheritedFd>, name: Seq<char>)
    ensures
        entries_lookup(entries, name) == if entries_map(entries).contains_key(name) {
            Some(entries_map(entries)[name])
        } else {
            None::<i32>
        },
    decreases entries.len(),
{
    if entries.len() > 0 {
        lemma_lookup_is_map(entries.drop_last(), name);
    }
}

proof fn lemma_map_empty_iff(entries: Seq<InheritedFd>)
    ensures
        entries_map(entries).is_empty() <==> entries.len() == 0,
    decreases entries.len(),
{
    if entries.len() > 0 {
        let last = entries.last();
        assert(entries_map(entries).contains_key(last.name@));
        assert(entries_map(entries).dom() != Set::<Seq<char>>::empty());
    } else {
        assert(entries_map(entries).dom() =~= Set::<Seq<char>>::empty());
    }
}

/// Descriptors inherited from a parent process, by service name.
#[derive(Debug, Clone)]
pub struct FdInheritanceConfig {
    entries: Vec<InheritedFd>,
    enable_inheritance: bool,
}

impl FdInheritanceConfig {
    /// The descriptors, by service name.
    pub closed spec fn fd_map(&self) -> Map<Seq<char>, i32> {
        entries_map(self.entries@)
    }

    /// Whether inheritance was found to be in effect.
    pub closed spec fn spec_enabled(&self) -> bool {
        self.enable_inheritance
    }

    /// A configuration with no descriptors.
    pub fn new(enabled: bool) -> (r: Self)
        ensures
            r.fd_map() == Map::<Seq<char>, i32>::empty(),
            r.spec_enabled() == enabled,
    {
        FdInheritanceConfig { entries: Vec::new(), enable_inheritance: enabled }
    }

    /// Records `fd` under `name`, replacing what was recorded under it.
    pub fn insert(&mut self, name: String, fd: i32)
        ensures
            final(self).fd_map() == old(self).fd_map().insert(name@, fd),
            final(self).spec_enabled() == old(self).spec_enabled(),
    {
        let ghost before = self.entries@;
        self.entries.push(InheritedFd { name, fd });
        assert(self.entries@.drop_last() =~= before);
    }

    /// The descriptor inherited for `service_name`, if any.
    pub fn get_fd(&self, service_name: &str) -> (r: Option<i32>)
        ensures
            r == if self.fd_map().contains_key(service_name@) {
                Some(self.fd_map()[service_name@])
            } else {
                None::<i32>
            },
    {
        proof {
            lemma_lookup_is_map(self.entries@, service_name@);
        }
        let wanted = String::from_str(service_name);
        let mut i: usize = self.entries.len();
        assert(self.entries@.subrange(0, i as int) =~= self.entries@);
        while i > 0
            invariant
                i <= self.entries@.len(),
                wanted@ == service_name@,
                entries_lookup(self.entries@, service_name@) == entries_lookup(
                    self.entries@.subrange(0, i as int),
                    service_name@,
                ),
            decreases i,
        {
            let ghost prefix = self.entries@.subrange(0, i as int);
            assert(prefix.drop_last() =~= self.entries@.subrange(0, i - 1));
            assert(prefix.last() == self.entries@[i - 1]);
            if self.entries[i - 1].name == wanted {
                assert(entries_lookup(prefix, service_name@) == Some(self.entries@[i - 1].fd));
                proof {
                    lemma_lookup_is_map(self.entries@, service_name@);
                }
                return Some(self.entries[i - 1].fd);
            }
            i = i - 1;
        }
        None
    }

    /// Whether inheritance is in effect and at least one descriptor was passed.
    pub fn has_inherited_fds(&self) -> (r: bool)
        ensures
            r == (self.spec_enabled() && !self.fd_map().is_empty()),
    {
        proof {
            lemma_map_empty_iff(self.entries@);
        }
        self.enable_inheritance && self.entries.len() > 0
    }

    /// Whether inheritance was found to be in effect.
    pub fn is_enabled(&self) -> (r: bool)
        ensures
            r == self.spec_enabled(),
    {
        self.enable_inheritance
    }

    /// Every service name with a descriptor, each once.
    pub fn inherited_service_names(&self) -> (r: Vec<String>)
        ensures
            string_views(r@).to_set() == self.fd_map().dom(),
            string_views(r@).no_duplicates(),
    {
        let n = self.entries.len();
        let mut names: Vec<String> = Vec::new();
        let mut i: usize = 0;
        assert(string_views(names@).to_set() =~= entries_map(self.entries@.subrange(0, 0)).dom());
        while i < n
            invariant
                n == self.entries@.len(),
                i <= n,
                string_views(names@).no_duplicates(),
                string_views(names@).to_set() == entries_map(self.entries@.subrange(0, i as int)).dom(),
            decreases n - i,
        {
            let ghost views = string_views(names@);
            let mut found = false;
            let mut k: usize = 0;
            while k < names.len()
                invariant
                    i < n,
                    n == self.entries@.len(),
                    k <= names@.len(),
                    views == string_views(names@),
                    found <==> exists|m: int| 0 <= m < k && views[m] == self.entries@[i as int].name@,
                decreases names@.len() - k,
            {
                assert(views[k as int] == names@[k as int]@);
                if names[k] == self.entries[i].name {
                    found = true;
                }
                k = k + 1;
            }
            let ghost name = self.entries@[i as int].name@;
            assert(self.entries@.subrange(0, i + 1).drop_last() =~= self.entries@.subrange(0, i as int));
            if !found {
                names.push(self.entries[i].name.clone());
                assert(string_views(names@) =~= views.push(name));
                assert(!views.contains(name));
                proof {
                    views.lemma_push_to_set_commute(name);
                }
                assert(string_views(names@).to_set() =~= views.to_set().insert(name));
            } else {
                assert(views.to_set().contains(name));
                assert(views.to_set() =~= views.to_set().insert(name));
            }
            i = i + 1;
        }
        assert(self.entries@.subrange(0, n as int) =~= self.entries@);
        names
    }
}

pub open spec fn opt_view(o: Option<&str>) -> Option<Seq<char>> {
    match o {
        Some(s) => Some(s@),
        None => None,
    }
}

/// The number of passed descriptors: zero when absent or not a number.
pub open spec fn listen_count(listen_fds: Option<Seq<char>>) -> nat {
    match listen_fds {
        Some(s) => match parse_u32_spec(s) {
            Some(n) => n as nat,
            None => 0,
        },
        None => 0,
    }
}

/// Whether the descriptors were meant for another process: the target process
/// is named, readable, and not this one.
pub open spec fn meant_for_other_process(listen_pid: Option<Seq<char>>, current_pid: u32) -> bool {
    match listen_pid {
        Some(s) => match parse_u32_spec(s) {
            Some(p) => p != current_pid,
            None => false,
        },
        None => false,
    }
}

/// The names given to the descriptors, in order: the colon-separated pieces
/// of the list when it is present (an empty list is one empty name), none
/// when it is absent.
pub open spec fn name_list(fd_names: Option<Seq<char>>) -> Seq<Seq<char>> {
    match fd_names {
        Some(s) => split_on(s, ':'),
        None => Seq::empty(),
    }
}

/// The name of the `i`-th descriptor: its given name, or `fd_<i>`.
pub open spec fn service_name_at(names: Seq<Seq<char>>, i: nat) -> Seq<char> {
    if i < names.len() {
        names[i as int]
    } else {
        seq!['f', 'd', '_'] + decimal(i)
    }
}

/// The first `n` passed descriptors by name; numbering starts right after the
/// standard I/O descriptors.
pub open spec fn activation_map(names: Seq<Seq<char>>, n: nat) -> Map<Seq<char>, i32>
    decreases n,
{
    if n == 0 {
        Map::empty()
    } else {
        activation_map(names, (n - 1) as nat).insert(
            service_name_at(names, (n - 1) as nat),
            (LISTEN_FDS_START + n - 1) as i32,
        )
    }
}

impl FdInheritanceConfig {
    /// Reads socket-activation metadata: the descriptor count, the process the
    /// descriptors are meant for, and the colon-separated descriptor names, as
    /// found in the environment, with the identity of the current process.
    ///
    /// No descriptors, or descriptors meant for another process, give an empty
    /// configuration with inheritance off. A count whose descriptor numbers
    /// would not fit is a configuration error.
    pub fn from_env_values(
        listen_fds: Option<&str>,
        listen_pid: Option<&str>,
        fd_names: Option<&str>,
        current_pid: u32,
    ) -> (r: Result<Self, EchoError>)
        ensures
            ({
                let count = listen_count(opt_view(listen_fds));
                if count == 0 || meant_for_other_process(opt_view(listen_pid), current_pid) {
                    r is Ok && !r->Ok_0.spec_enabled() && r->Ok_0.fd_map() == Map::<Seq<char>, i32>::empty()
                } else if count > MAX_LISTEN_FDS {
                    r is Err && r->Err_0 is Config
                } else {
                    r is Ok && r->Ok_0.spec_enabled() && r->Ok_0.fd_map() == activation_map(
                        name_list(opt_view(fd_names)),
                        count,
                    )
                }
            }),
    {
        let count: u32 = match listen_fds {
            Some(s) => match parse_u32(s) {
                Some(n) => n,
                None => 0,
            },
            None => 0,
        };
        if count == 0 {
            return Ok(Self::new(false));
        }
        match listen_pid {
            Some(p) => match parse_u32(p) {
                Some(expected) => {
                    if expected != current_pid {
                        return Ok(Self::new(false));
                    }
                },
                None => {},
            },
            None => {},
        }
        if count > MAX_LISTEN_FDS {
            return Err(EchoError::Config(String::from_str("Too many passed descriptors")));
        }
        let names: Vec<String> = match fd_names {
            Some(s) => split_str(s, ':'),
            None => Vec::new(),
        };
        let ghost given = name_list(opt_view(fd_names));
        assert(string_views(names@) == given);
        let mut config = Self::new(true);
        let mut i: u32 = 0;
        while i < count
            invariant
                i <= count <= MAX_LISTEN_FDS,
                string_views(names@) == given,
                config.spec_enabled(),
                config.fd_map() == activation_map(given, i as nat),
            decreases count - i,
        {
            let name = if (i as usize) < names.len() {
                assert(string_views(names@)[i as int] == names@[i as int]@);
                names[i as usize].clone()
            } else {
                let mut generic = String::from_str("fd_");
                proof {
                    reveal_strlit("fd_");
                }
                assert(generic@ =~= seq!['f', 'd', '_']);
                push_decimal(&mut generic, i);
                generic
            };
            assert(name@ == service_name_at(given, i as nat));
            config.insert(name, LISTEN_FDS_START + i as i32);
            i = i + 1;
        }
        Ok(config)
    }
}

/// Socket activation that passes one descriptor to this process under a single
/// name yields that name on the first passed descriptor, with inheritance on;
/// the same metadata aimed at another process yields no descriptor at all.
pub proof fn lemma_single_descriptor_activation(name: Seq<char>, pid: u32, other_pid: u32)
    requires
        !name.contains(':'),
        other_pid != pid,
    ensures
        listen_count(Some(seq!['1'])) == 1,
        !meant_for_other_process(Some(decimal(pid as nat)), pid),
        meant_for_other_process(Some(decimal(other_pid as nat)), pid),
        activation_map(name_list(Some(name)), 1) == map![name => LISTEN_FDS_START],
{
    lemma_one_parses();
    lemma_decimal_parses(pid as nat);
    lemma_decimal_parses(other_pid as nat);
    lemma_split_without_separator(name, ':');
    assert(activation_map(seq![name], 0) == Map::<Seq<char>, i32>::empty());
    assert(service_name_at(seq![name], 0) == name);
    assert(activation_map(seq![name], 1) =~= map![name => LISTEN_FDS_START]);
}

proof fn lemma_one_parses()
    ensures
        parse_u32_spec(seq!['1']) == Some(1u32),
{
    let s = seq!['1'];
    assert(s.drop_last() =~= Seq::<char>::empty());
    assert(digits_value(Seq::<char>::empty()) == 0);
    assert(s.last() == '1');
    assert(digits_value(s) == 1);
}

} // verus!
