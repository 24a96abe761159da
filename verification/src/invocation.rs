//! Command invocations: an executable and the arguments it is started with.

use vstd::prelude::*;

verus! {

/// The texts of a list of strings, in order.
pub open spec fn texts(words: Seq<String>) -> Seq<Seq<char>> {
    Seq::new(words.len(), |i: int| words[i]@)
}

/// One launch of an outside program. It always names an executable and is
/// not changed once it is made.
#[derive(Debug, PartialEq, Eq)]
pub struct Invocation {
    program: String,
    args: Vec<String>,
}

impl View for Invocation {
    type V = Seq<Seq<char>>;

    /// The words of the invocation: the executable's name, then each argument.
    closed spec fn view(&self) -> Seq<Seq<char>> {
        seq![self.program@] + texts(self.args@)
    }
}

impl Invocation {
    /// Every invocation has a first word, the executable's name.
    pub proof fn always_names_program(self)
        ensures
            self@.len() >= 1,
    {
    }

    /// The invocation of `program` without arguments.
    pub fn new(program: &str) -> (invocation: Invocation)
        ensures
            invocation@ == seq![program@],
    {
        let invocation = Invocation { program: program.to_owned(), args: Vec::new() };
        assert(invocation@ =~= seq![program@]);
        invocation
    }

    /// The same invocation with `arg` as one more argument at the end.
    pub fn arg(self, arg: &str) -> (invocation: Invocation)
        ensures
            invocation@ == self@.push(arg@),
    {
        let mut args = self.args;
        args.push(arg.to_owned());
        let invocation = Invocation { program: self.program, args };
        assert(invocation@ =~= self@.push(arg@));
        invocation
    }

    /// Splits a command line that is already cut into words: the first word is
    /// the executable, the others are its arguments. A line without words names
    /// no executable and is not accepted.
    pub fn from_words(words: Vec<String>) -> (invocation: Invocation)
        requires
            words.len() >= 1,
        ensures
            invocation@ == texts(words@),
    {
        let mut args = words;
        let program = args.remove(0);
        let invocation = Invocation { program, args };
        assert(invocation@ =~= texts(words@));
        invocation
    }

    /// The executable's name.
    pub fn program(&self) -> (program: &str)
        ensures
            program@ == self@[0],
    {
        self.program.as_str()
    }

    /// The arguments, in the order in which the executable gets them.
    pub fn args(&self) -> (args: &Vec<String>)
        ensures
            texts(args@) == self@.skip(1),
    {
        assert(texts(self.args@) =~= self@.skip(1));
        &self.args
    }
}

} // verus!
