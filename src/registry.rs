use vstd::prelude::*;
use crate::error::{InvokeError, StartupError};

verus! {

/// A capability module that the bootstrap installs.
#[derive(Clone, Copy, Debug, PartialEq, Eq, Structural)]
pub enum Module {
    Filesystem,
    Logging,
}

/// What runs when a command is invoked.
#[derive(Clone, Copy, Debug, PartialEq, Eq, Structural)]
pub enum Handler {
    /// The built-in `greet` command.
    Greet,
    /// The `command`-th command that a capability module registered; the
    /// module itself serves it.
    Module { module: Module, command: usize },
}

/// The handler registered under `name`, if any.
pub open spec fn lookup_command(s: Seq<(Seq<char>, Handler)>, name: Seq<char>) -> Option<Handler>
    decreases s.len(),
{
    if s.len() == 0 {
        None
    } else if s.last().0 == name {
        Some(s.last().1)
    } else {
        lookup_command(s.drop_last(), name)
    }
}

/// No name is registered twice.
pub open spec fn names_unique(s: Seq<(Seq<char>, Handler)>) -> bool {
    forall|i: int, j: int| 0 <= i < j < s.len() ==> s[i].0 != s[j].0
}

/// The table after registering `handler` under `name`, or `None` where the
/// name is taken.
pub open spec fn registered(s: Seq<(Seq<char>, Handler)>, name: Seq<char>, handler: Handler) -> Option<
    Seq<(Seq<char>, Handler)>,
> {
    if lookup_command(s, name) is Some {
        None
    } else {
        Some(s.push((name, handler)))
    }
}

/// A name is unknown exactly when no entry carries it.
pub proof fn lemma_lookup_none(s: Seq<(Seq<char>, Handler)>, name: Seq<char>)
    ensures
        lookup_command(s, name) is None <==> forall|i: int| 0 <= i < s.len() ==> s[i].0 != name,
    decreases s.len(),
{
    if s.len() > 0 {
        lemma_lookup_none(s.drop_last(), name);
        if lookup_command(s, name) is None {
            assert forall|i: int| 0 <= i < s.len() implies s[i].0 != name by {
                if i < s.len() - 1 {
                    assert(s.drop_last()[i] == s[i]);
                }
            }
        } else if s.last().0 != name {
            let i = choose|i: int| 0 <= i < s.len() - 1 && s.drop_last()[i].0 == name;
            assert(s[i].0 == name);
        }
    }
}

/// Where names are unique, a name reaches the one handler registered under
/// it and no other: no two handlers are reachable under one name.
pub proof fn lemma_one_handler_per_name(
    s: Seq<(Seq<char>, Handler)>,
    name: Seq<char>,
    i: int,
    j: int,
)
    requires
        names_unique(s),
        0 <= i < s.len(),
        0 <= j < s.len(),
        s[i].0 == name,
        s[j].0 == name,
    ensures
        i == j,
        lookup_command(s, name) == Some(s[i].1),
    decreases s.len(),
{
    if i != s.len() - 1 {
        let t = s.drop_last();
        assert(s.last().0 != name);
        assert(t[i] == s[i]);
        lemma_one_handler_per_name(t, name, i, i);
    }
}

/// A name that has been registered once cannot be registered again.
pub proof fn lemma_second_registration_rejected(
    s: Seq<(Seq<char>, Handler)>,
    name: Seq<char>,
    first: Handler,
    second: Handler,
)
    requires
        registered(s, name, first) is Some,
    ensures
        registered(registered(s, name, first)->Some_0, name, second) is None,
{
    assert(s.push((name, first)).last().0 == name);
}

/// The views of a sequence of strings.
pub open spec fn string_views(s: Seq<String>) -> Seq<Seq<char>> {
    s.map_values(|c: String| c@)
}

/// The table after a module registers `commands` in order, or the first
/// command whose name is already taken.
pub open spec fn installed(
    s: Seq<(Seq<char>, Handler)>,
    module: Module,
    commands: Seq<Seq<char>>,
) -> Result<Seq<(Seq<char>, Handler)>, Seq<char>>
    decreases commands.len(),
{
    if commands.len() == 0 {
        Ok(s)
    } else {
        match installed(s, module, commands.drop_last()) {
            Err(n) => Err(n),
            Ok(t) => match registered(
                t,
                commands.last(),
                Handler::Module { module, command: (commands.len() - 1) as usize },
            ) {
                Some(u) => Ok(u),
                None => Err(commands.last()),
            },
        }
    }
}

/// Once installing a prefix of the commands has failed, installing all of
/// them fails with the same name.
proof fn lemma_installed_fails_after(
    s: Seq<(Seq<char>, Handler)>,
    module: Module,
    commands: Seq<Seq<char>>,
    k: int,
)
    requires
        0 <= k <= commands.len(),
        installed(s, module, commands.subrange(0, k)) is Err,
    ensures
        installed(s, module, commands) == installed(s, module, commands.subrange(0, k)),
    decreases commands.len() - k,
{
    if k < commands.len() {
        assert(commands.subrange(0, k + 1).drop_last() == commands.subrange(0, k));
        lemma_installed_fails_after(s, module, commands, k + 1);
    } else {
        assert(commands.subrange(0, k) == commands);
    }
}

/// A successful installation only appends to the table.
proof fn lemma_installed_extends(
    s: Seq<(Seq<char>, Handler)>,
    module: Module,
    commands: Seq<Seq<char>>,
)
    ensures
        installed(s, module, commands) matches Ok(t) ==> s.is_prefix_of(t),
    decreases commands.len(),
{
    if commands.len() > 0 {
        lemma_installed_extends(s, module, commands.drop_last());
    }
}

/// The command registry: a table from command name to handler.
pub struct Registry {
    entries: Vec<(String, Handler)>,
}

impl View for Registry {
    type V = Seq<(Seq<char>, Handler)>;

    closed spec fn view(&self) -> Seq<(Seq<char>, Handler)> {
        self.entries@.map_values(|e: (String, Handler)| (e.0@, e.1))
    }
}

impl Registry {
    /// Every name is registered at most once.
    pub open spec fn wf(&self) -> bool {
        names_unique(self@)
    }

    /// An empty registry.
    pub fn new() -> (r: Registry)
        ensures
            r@ == Seq::<(Seq<char>, Handler)>::empty(),
            r.wf(),
    {
        let r = Registry { entries: Vec::new() };
        assert(r@ =~= Seq::<(Seq<char>, Handler)>::empty());
        r
    }

    /// The number of registered commands.
    pub fn len(&self) -> (r: usize)
        ensures
            r == self@.len(),
    {
        self.entries.len()
    }

    fn find(&self, name: &String) -> (r: Option<Handler>)
        ensures
            r == lookup_command(self@, name@),
    {
        let mut i: usize = self.entries.len();
        assert(self@.subrange(0, i as int) == self@);
        while i > 0
            invariant
                i <= self.entries@.len(),
                lookup_command(self@, name@) == lookup_command(self@.subrange(0, i as int), name@),
            decreases i,
        {
            let ghost prefix = self@.subrange(0, i as int);
            assert(prefix.drop_last() == self@.subrange(0, i - 1));
            if self.entries[i - 1].0 == *name {
                return Some(self.entries[i - 1].1);
            }
            i = i - 1;
        }
        None
    }

    /// Registers `handler` under `name`; fails where the name is taken, and
    /// then leaves the registry as it was.
    pub fn register(&mut self, name: String, handler: Handler) -> (r: Result<(), StartupError>)
        requires
            old(self).wf(),
        ensures
            final(self).wf(),
            match registered(old(self)@, name@, handler) {
                Some(s) => r is Ok && final(self)@ == s,
                None => final(self)@ == old(self)@ && (r matches Err(
                    StartupError::DuplicateCommand { name: n },
                ) && n@ == name@),
            },
    {
        if self.find(&name).is_some() {
            return Err(StartupError::DuplicateCommand { name });
        }
        proof {
            lemma_lookup_none(self@, name@);
        }
        let ghost before = self@;
        self.entries.push((name, handler));
        assert(self@ =~= before.push((name@, handler)));
        Ok(())
    }

    /// The handler registered under `name`; an unknown name is a typed
    /// error, never a crash.
    pub fn resolve(&self, name: &str) -> (r: Result<Handler, InvokeError>)
        ensures
            match lookup_command(self@, name@) {
                Some(h) => r == Ok::<Handler, InvokeError>(h),
                None => r matches Err(InvokeError::UnknownCommand { name: n }) && n@ == name@,
            },
    {
        let wanted = String::from_str(name);
        match self.find(&wanted) {
            Some(h) => Ok(h),
            None => Err(InvokeError::UnknownCommand { name: wanted }),
        }
    }

    /// Registers, in order, the commands that `module` provides; the `i`-th
    /// is served by the module as its command `i`. Stops at the first name
    /// that is already taken.
    pub fn install_module(&mut self, module: Module, commands: &Vec<String>) -> (r: Result<
        (),
        StartupError,
    >)
        requires
            old(self).wf(),
        ensures
            final(self).wf(),
            old(self)@.is_prefix_of(final(self)@),
            match installed(old(self)@, module, string_views(commands@)) {
                Ok(s) => r is Ok && final(self)@ == s,
                Err(n) => r matches Err(StartupError::DuplicateCommand { name }) && name@ == n,
            },
    {
        let ghost before = self@;
        let ghost names = string_views(commands@);
        let mut i: usize = 0;
        while i < commands.len()
            invariant
                i <= commands@.len(),
                names == string_views(commands@),
                before == old(self)@,
                self.wf(),
                before.is_prefix_of(self@),
                installed(before, module, names.subrange(0, i as int)) == Ok::<
                    Seq<(Seq<char>, Handler)>,
                    Seq<char>,
                >(self@),
            decreases commands@.len() - i,
        {
            let ghost prev = self@;
            assert(names.subrange(0, i + 1).drop_last() == names.subrange(0, i as int));
            assert(names.subrange(0, i + 1).last() == commands@[i as int]@);
            match self.register(commands[i].clone(), Handler::Module { module, command: i }) {
                Ok(()) => {},
                Err(e) => {
                    proof {
                        lemma_installed_fails_after(before, module, names, i as int + 1);
                    }
                    return Err(e);
                },
            }
            assert(before.is_prefix_of(self@)) by {
                assert(forall|k: int| 0 <= k < prev.len() ==> self@[k] == prev[k]);
            }
            i = i + 1;
        }
        assert(names.subrange(0, i as int) == names);
        proof {
            lemma_installed_extends(before, module, names);
        }
        Ok(())
    }
}

} // verus!
