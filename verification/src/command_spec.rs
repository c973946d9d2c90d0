//! Description of a command line: an executable, its arguments and the
//! environment variables to set for it.

use vstd::prelude::*;
use vstd::string::StringExecFns;

verus! {

/// The texts held by a sequence of strings.
pub open spec fn texts(strings: Seq<String>) -> Seq<Seq<char>> {
    strings.map_values(|s: String| s@)
}

/// The texts held by a sequence of string slices.
pub open spec fn slice_texts(strings: Seq<&str>) -> Seq<Seq<char>> {
    strings.map_values(|s: &str| s@)
}

/// The texts held by a sequence of key-value pairs.
pub open spec fn pair_texts(pairs: Seq<(String, String)>) -> Seq<(Seq<char>, Seq<char>)> {
    pairs.map_values(|p: (String, String)| (p.0@, p.1@))
}

/// Mathematical content of a [`CommandSpec`].
pub ghost struct CommandSpecView {
    pub executable: Seq<char>,
    pub arguments: Seq<Seq<char>>,
    pub envs: Seq<(Seq<char>, Seq<char>)>,
}

#[derive(Debug, Clone, PartialEq, Eq)]
pub struct CommandSpec {
    pub executable: String,
    pub arguments: Vec<String>,
    pub envs: Vec<(String, String)>,
}

impl View for CommandSpec {
    type V = CommandSpecView;

    open spec fn view(&self) -> CommandSpecView {
        CommandSpecView {
            executable: self.executable@,
            arguments: texts(self.arguments@),
            envs: pair_texts(self.envs@),
        }
    }
}

impl CommandSpec {
    /// A command that runs `executable` without arguments and without
    /// additional environment variables.
    pub fn new(executable: &str) -> (command_spec: Self)
        ensures
            command_spec@ == (CommandSpecView {
                executable: executable@,
                arguments: Seq::empty(),
                envs: Seq::empty(),
            }),
    {
        let command_spec = Self {
            executable: String::from_str(executable),
            arguments: Vec::new(),
            envs: Vec::new(),
        };
        assert(texts(command_spec.arguments@) =~= Seq::empty());
        assert(pair_texts(command_spec.envs@) =~= Seq::empty());
        command_spec
    }

    /// Appends one argument.
    pub fn add_argument(&mut self, argument: &str) -> (chained: &mut Self)
        ensures
            chained@ == (CommandSpecView {
                arguments: old(self)@.arguments.push(argument@),
                ..old(self)@
            }),
            *final(self) == *final(chained),
    {
        self.arguments.push(String::from_str(argument));
        assert(texts(self.arguments@) =~= texts(old(self).arguments@).push(argument@));
        self
    }

    /// Appends the given arguments in their order.
    pub fn add_arguments(&mut self, arguments: Vec<&str>) -> (chained: &mut Self)
        ensures
            chained@ == (CommandSpecView {
                arguments: old(self)@.arguments + slice_texts(arguments@),
                ..old(self)@
            }),
            *final(self) == *final(chained),
    {
        let mut i: usize = 0;
        while i < arguments.len()
            invariant
                i <= arguments.len(),
                self.executable == old(self).executable,
                self.envs == old(self).envs,
                texts(self.arguments@) == texts(old(self).arguments@) + slice_texts(
                    arguments@,
                ).take(i as int),
            decreases arguments.len() - i,
        {
            let ghost before = self.arguments@;
            self.arguments.push(String::from_str(arguments[i]));
            assert(texts(self.arguments@) =~= texts(before).push(arguments@[i as int]@));
            assert(slice_texts(arguments@).take(i + 1) =~= slice_texts(arguments@).take(
                i as int,
            ).push(arguments@[i as int]@));
            i += 1;
        }
        assert(slice_texts(arguments@).take(arguments.len() as int) =~= slice_texts(arguments@));
        self
    }

    /// Appends one environment variable.
    pub fn add_env(&mut self, key: String, value: String) -> (chained: &mut Self)
        ensures
            chained@ == (CommandSpecView {
                envs: old(self)@.envs.push((key@, value@)),
                ..old(self)@
            }),
            *final(self) == *final(chained),
    {
        self.envs.push((key, value));
        assert(pair_texts(self.envs@) =~= pair_texts(old(self).envs@).push((key@, value@)));
        self
    }
}

} // verus!
