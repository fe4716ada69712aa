use vstd::prelude::*;

verus! {

/// A program to run with its arguments: how the bar asks the system
/// tools (`wpctl`, `hyprctl`) to change something.
#[derive(Debug, Clone)]
pub struct Invocation {
    pub program: String,
    pub args: Vec<String>,
}

/// The texts of a list of strings.
pub open spec fn texts(v: Seq<String>) -> Seq<Seq<char>> {
    v.map_values(|a: String| a@)
}

impl Invocation {
    /// The program's name and its arguments as texts.
    pub open spec fn command_line(&self) -> (Seq<char>, Seq<Seq<char>>) {
        (self.program@, texts(self.args@))
    }
}

/// Builds an invocation of `program` with the given arguments.
pub fn invocation(program: &str, args: Vec<String>) -> (r: Invocation)
    ensures
        r.program@ == program@,
        r.args@ == args@,
{
    Invocation { program: String::from_str(program), args }
}

/// The arguments `words`, as owned strings.
pub fn owned_args(words: &[&str]) -> (r: Vec<String>)
    ensures
        texts(r@) == words@.map_values(|w: &str| w@),
{
    let mut r: Vec<String> = Vec::new();
    let mut i: usize = 0;
    while i < words.len()
        invariant
            i <= words.len(),
            texts(r@) == words@.subrange(0, i as int).map_values(|w: &str| w@),
        decreases words.len() - i,
    {
        let w = String::from_str(words[i]);
        assert(w@ == words@[i as int]@);
        let ghost before = r@;
        r.push(w);
        assert(r@ == before.push(w));
        assert(texts(r@) =~= texts(before).push(w@));
        assert(words@.subrange(0, i + 1) =~= words@.subrange(0, i as int).push(words@[i as int]));
        assert(words@.subrange(0, i + 1).map_values(|w: &str| w@) =~= words@.subrange(
            0,
            i as int,
        ).map_values(|w: &str| w@).push(words@[i as int]@));
        i = i + 1;
    }
    assert(words@.subrange(0, words.len() as int) == words@);
    r
}

} // verus!
