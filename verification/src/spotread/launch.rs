//! How the measurement tool is started.

use vstd::prelude::*;

verus! {

/// The program that takes the readings.
pub const SPOTREAD_PROGRAM: &'static str = "spotread";

/// The variable that keeps the tool from waiting for a key where it reports an error.
pub const NOT_INTERACTIVE_VAR: &'static str = "ARGYLL_NOT_INTERACTIVE";

/// The value that the variable is set to.
pub const NOT_INTERACTIVE_VALUE: &'static str = "1";

/// The words of one option: its key and, where it has one, its value;
/// empty words are left out.
pub open spec fn option_words(key: Seq<char>, value: Option<Seq<char>>) -> Seq<Seq<char>> {
    let first = if key.len() > 0 {
        seq![key]
    } else {
        Seq::empty()
    };
    match value {
        Some(v) => if v.len() > 0 {
            first.push(v)
        } else {
            first
        },
        None => first,
    }
}

/// The words that the tool is started with: those of the options, in their order.
pub open spec fn argument_words(options: Seq<(String, Option<String>)>) -> Seq<Seq<char>>
    decreases options.len(),
{
    if options.len() == 0 {
        Seq::empty()
    } else {
        argument_words(options.drop_last()) + option_words(
            options.last().0@,
            match options.last().1 {
                Some(v) => Some(v@),
                None => None,
            },
        )
    }
}

/// The views of a list of words.
pub open spec fn word_views(words: Seq<String>) -> Seq<Seq<char>> {
    Seq::new(words.len(), |i: int| words[i]@)
}

/// The words that the tool is started with.
pub fn spotread_args(cli_args: &Vec<(String, Option<String>)>) -> (r: Vec<String>)
    ensures
        word_views(r@) == argument_words(cli_args@),
{
    let mut out: Vec<String> = Vec::new();
    let mut i: usize = 0;
    assert(cli_args@.subrange(0, 0) =~= Seq::<(String, Option<String>)>::empty());
    assert(word_views(out@) =~= Seq::<Seq<char>>::empty());
    while i < cli_args.len()
        invariant
            i <= cli_args.len(),
            word_views(out@) == argument_words(cli_args@.subrange(0, i as int)),
        decreases cli_args.len() - i,
    {
        let ghost before = word_views(out@);
        proof {
            assert(cli_args@.subrange(0, i + 1).drop_last() =~= cli_args@.subrange(0, i as int));
            assert(cli_args@.subrange(0, i + 1).last() == cli_args@[i as int]);
        }
        let key = &cli_args[i].0;
        if !key.as_str().is_empty() {
            out.push(key.clone());
            assert(word_views(out@) =~= before.push(key@));
        }
        let ghost mid = word_views(out@);
        match &cli_args[i].1 {
            Some(value) => {
                if !value.as_str().is_empty() {
                    out.push(value.clone());
                    assert(word_views(out@) =~= mid.push(value@));
                }
            },
            None => {},
        }
        assert(word_views(out@) =~= before + option_words(
            cli_args@[i as int].0@,
            match cli_args@[i as int].1 {
                Some(v) => Some(v@),
                None => None,
            },
        ));
        i += 1;
    }
    assert(cli_args@.subrange(0, cli_args@.len() as int) =~= cli_args@);
    out
}

} // verus!
