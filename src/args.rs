//! An ordered list of arguments for a delegated build-tool invocation.
use vstd::prelude::*;

verus! {

/// Collects arguments in the order they are added. Nothing is validated,
/// deduplicated or reordered.
pub struct ArgBuilder {
    args: Vec<String>,
}

impl View for ArgBuilder {
    type V = Seq<Seq<char>>;

    closed spec fn view(&self) -> Seq<Seq<char>> {
        self.args@.map_values(|a: String| a@)
    }
}

impl ArgBuilder {
    /// An empty argument list.
    pub fn new() -> (r: ArgBuilder)
        ensures
            r@ == Seq::<Seq<char>>::empty(),
    {
        let r = ArgBuilder { args: Vec::new() };
        assert(r@ =~= Seq::<Seq<char>>::empty());
        r
    }

    /// Appends a flag that takes no value.
    pub fn add(&mut self, flag: &str)
        ensures
            final(self)@ == old(self)@.push(flag@),
    {
        self.args.push(flag.to_string());
        assert(final(self)@ =~= old(self)@.push(flag@));
    }

    /// Appends a flag and then its value, as two separate arguments.
    pub fn add_with_value(&mut self, flag: &str, value: &str)
        ensures
            final(self)@ == old(self)@.push(flag@).push(value@),
    {
        self.args.push(flag.to_string());
        self.args.push(value.to_string());
        assert(final(self)@ =~= old(self)@.push(flag@).push(value@));
    }

    /// The arguments, in the order they were added.
    pub fn into_args(self) -> (r: Vec<String>)
        ensures
            r@.map_values(|a: String| a@) == self@,
    {
        self.args
    }
}

} // verus!
