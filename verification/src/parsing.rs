//! Parsing the todo tool's `add` command.

use vstd::prelude::*;
use vstd::string::{StrSliceExecFns, StringExecFns};

verus! {

/// Why an `add` command carries no task.
#[derive(Clone, Copy, Debug, PartialEq, Eq, Structural)]
pub enum AddCommandError {
    /// No word follows `add`.
    MissingDescription,
    /// The words after `add` are empty once the quotes are stripped.
    EmptyDescription,
}

/// The words joined by single spaces.
pub open spec fn join_words(words: Seq<Seq<char>>) -> Seq<char>
    decreases words.len(),
{
    if words.len() == 0 {
        Seq::empty()
    } else if words.len() == 1 {
        words[0]
    } else {
        join_words(words.drop_last()) + seq![' '] + words.last()
    }
}

/// The number of characters of all the words together.
pub open spec fn total_chars(words: Seq<Seq<char>>) -> nat
    decreases words.len(),
{
    if words.len() == 0 {
        0
    } else {
        total_chars(words.drop_last()) + words.last().len()
    }
}

/// Where word `k` starts when the words are written one after another with
/// one character between neighbours.
pub open spec fn word_offset(words: Seq<Seq<char>>, k: int) -> int {
    total_chars(words.take(k)) + k
}

proof fn lemma_total_chars_prefix(words: Seq<Seq<char>>, m: int)
    requires
        0 <= m <= words.len(),
    ensures
        total_chars(words.take(m)) <= total_chars(words),
        m < words.len() ==> total_chars(words.take(m + 1)) == total_chars(words.take(m))
            + words[m].len(),
    decreases words.len(),
{
    if m < words.len() {
        assert(words.take(m + 1).drop_last() =~= words.take(m));
        lemma_total_chars_prefix(words.drop_last(), m);
        assert(words.drop_last().take(m) =~= words.take(m));
    } else {
        assert(words.take(m) =~= words);
    }
}

proof fn lemma_join_len(words: Seq<Seq<char>>)
    requires
        words.len() >= 1,
    ensures
        join_words(words).len() == total_chars(words) + words.len() - 1,
    decreases words.len(),
{
    if words.len() == 1 {
        assert(words.drop_last() =~= Seq::<Seq<char>>::empty());
    } else {
        lemma_join_len(words.drop_last());
    }
}

proof fn lemma_offsets_of_init(words: Seq<Seq<char>>, k: int)
    requires
        0 <= k < words.len() - 1,
    ensures
        word_offset(words, k) == word_offset(words.drop_last(), k),
        words.drop_last()[k] == words[k],
        word_offset(words, k) + words[k].len() <= join_words(words.drop_last()).len(),
{
    let init = words.drop_last();
    assert(words.take(k) =~= init.take(k));
    lemma_total_chars_prefix(init, k);
    lemma_total_chars_prefix(init, k + 1);
    lemma_join_len(init);
}

proof fn lemma_join_word(words: Seq<Seq<char>>, k: int)
    requires
        0 <= k < words.len(),
    ensures
        join_words(words).subrange(word_offset(words, k), word_offset(words, k) + words[k].len())
            == words[k],
    decreases words.len(),
{
    if words.len() == 1 {
        assert(words.take(0) =~= Seq::<Seq<char>>::empty());
        assert(words[0].subrange(0, words[0].len() as int) =~= words[0]);
    } else {
        let init = words.drop_last();
        let j = join_words(words);
        let ji = join_words(init);
        assert(j == ji + seq![' '] + words.last());
        if k < words.len() - 1 {
            lemma_offsets_of_init(words, k);
            lemma_join_word(init, k);
            assert(j.subrange(word_offset(words, k), word_offset(words, k) + words[k].len())
                =~= ji.subrange(word_offset(init, k), word_offset(init, k) + init[k].len()));
        } else {
            assert(words.take(k) =~= init);
            lemma_join_len(init);
            assert(j.subrange(word_offset(words, k), word_offset(words, k) + words[k].len())
                =~= words.last());
        }
    }
}

proof fn lemma_join_space(words: Seq<Seq<char>>, k: int)
    requires
        0 <= k < words.len() - 1,
    ensures
        join_words(words)[word_offset(words, k) + words[k].len()] == ' ',
    decreases words.len(),
{
    let init = words.drop_last();
    let j = join_words(words);
    let ji = join_words(init);
    assert(j == ji + seq![' '] + words.last());
    lemma_offsets_of_init(words, k);
    lemma_join_len(init);
    if k < init.len() - 1 {
        lemma_join_space(init, k);
        lemma_offsets_of_init(init, k);
    } else {
        assert(init.take(k + 1) =~= init);
        lemma_total_chars_prefix(init, k);
    }
}

/// Joining keeps every word, in order, each once: the joined text has the
/// words' characters plus one between each two neighbours, every word stands
/// at its offset, and a single space stands after every word but the last.
pub proof fn law_join_keeps_every_word(words: Seq<Seq<char>>)
    requires
        words.len() >= 1,
    ensures
        join_words(words).len() == total_chars(words) + words.len() - 1,
        forall|k: int|
            0 <= k < words.len() ==> #[trigger] join_words(words).subrange(
                word_offset(words, k),
                word_offset(words, k) + words[k].len(),
            ) == words[k],
        forall|k: int|
            0 <= k < words.len() - 1 ==> join_words(words)[word_offset(words, k)
                + #[trigger] words[k].len()] == ' ',
{
    lemma_join_len(words);
    assert forall|k: int| 0 <= k < words.len() implies #[trigger] join_words(words).subrange(
        word_offset(words, k),
        word_offset(words, k) + words[k].len(),
    ) == words[k] by {
        lemma_join_word(words, k);
    }
    assert forall|k: int| 0 <= k < words.len() - 1 implies join_words(words)[word_offset(words, k)
        + #[trigger] words[k].len()] == ' ' by {
        lemma_join_space(words, k);
    }
}

/// `s` without its leading `c`s.
pub open spec fn trim_start(s: Seq<char>, c: char) -> Seq<char>
    decreases s.len(),
{
    if s.len() > 0 && s[0] == c {
        trim_start(s.drop_first(), c)
    } else {
        s
    }
}

/// `s` without its trailing `c`s.
pub open spec fn trim_end(s: Seq<char>, c: char) -> Seq<char>
    decreases s.len(),
{
    if s.len() > 0 && s.last() == c {
        trim_end(s.drop_last(), c)
    } else {
        s
    }
}

/// `s` without its leading and trailing `c`s, as `str::trim_matches` gives it.
pub open spec fn trim_matches(s: Seq<char>, c: char) -> Seq<char> {
    trim_end(trim_start(s, c), c)
}

/// The task an `add` command describes: the words after the command joined
/// by spaces, with surrounding double quotes and then single quotes removed.
pub open spec fn task_description(args: Seq<Seq<char>>) -> Seq<char> {
    trim_matches(trim_matches(join_words(args.drop_first()), '"'), '\'')
}

/// The text of each argument.
pub open spec fn arg_texts(args: Seq<String>) -> Seq<Seq<char>> {
    args.map_values(|a: String| a@)
}

proof fn lemma_trim_start_skip(s: Seq<char>, c: char, k: int)
    requires
        0 <= k <= s.len(),
        forall|i: int| 0 <= i < k ==> s[i] == c,
    ensures
        trim_start(s, c) == trim_start(s.subrange(k, s.len() as int), c),
    decreases k,
{
    if k > 0 {
        assert(s.drop_first().subrange(k - 1, s.drop_first().len() as int) =~= s.subrange(
            k,
            s.len() as int,
        ));
        lemma_trim_start_skip(s.drop_first(), c, k - 1);
    } else {
        assert(s.subrange(0, s.len() as int) =~= s);
    }
}

proof fn lemma_trim_end_skip(s: Seq<char>, c: char, k: int)
    requires
        0 <= k <= s.len(),
        forall|i: int| k <= i < s.len() ==> s[i] == c,
    ensures
        trim_end(s, c) == trim_end(s.subrange(0, k), c),
    decreases s.len() - k,
{
    if k < s.len() {
        assert(s.drop_last().subrange(0, k) =~= s.subrange(0, k));
        lemma_trim_end_skip(s.drop_last(), c, k);
    } else {
        assert(s.subrange(0, k) =~= s);
    }
}

/// Removes the leading and trailing `c`s of `s`.
pub fn trim_char(s: &str, c: char) -> (out: String)
    ensures
        out@ == trim_matches(s@, c),
{
    let n = s.unicode_len();
    let mut start: usize = 0;
    while start < n && s.get_char(start) == c
        invariant
            n == s@.len(),
            0 <= start <= n,
            forall|i: int| 0 <= i < start ==> s@[i] == c,
        decreases n - start,
    {
        start = start + 1;
    }
    proof {
        lemma_trim_start_skip(s@, c, start as int);
    }
    let ghost rest = s@.subrange(start as int, n as int);
    assert(trim_start(rest, c) == rest);
    let mut end: usize = n;
    while end > start && s.get_char(end - 1) == c
        invariant
            n == s@.len(),
            0 <= start <= end <= n,
            forall|i: int| end <= i < n ==> s@[i] == c,
        decreases end - start,
    {
        end = end - 1;
    }
    proof {
        lemma_trim_end_skip(rest, c, end - start);
        assert(rest.subrange(0, end - start) =~= s@.subrange(start as int, end as int));
        let kept = s@.subrange(start as int, end as int);
        assert(kept.len() == 0 || kept.last() != c);
    }
    String::from_str(s.substring_char(start, end))
}

/// Joins the arguments after the command with single spaces.
pub fn join_args(args: &[String]) -> (out: String)
    requires
        args@.len() >= 1,
    ensures
        out@ == join_words(arg_texts(args@).drop_first()),
{
    let mut out = String::new();
    let n = args.len();
    let mut i: usize = 1;
    while i < n
        invariant
            n == args@.len(),
            1 <= i <= n,
            out@ == join_words(arg_texts(args@).subrange(1, i as int)),
        decreases n - i,
    {
        let ghost words = arg_texts(args@).subrange(1, i as int + 1);
        assert(words.drop_last() =~= arg_texts(args@).subrange(1, i as int));
        assert(words.last() == args@[i as int]@);
        let ghost before = out@;
        if i > 1 {
            let space = " ";
            proof {
                reveal_strlit(" ");
                assert(space@ =~= seq![' ']);
            }
            out.append(space);
            assert(out@ == before + seq![' ']);
        } else {
            assert(before =~= Seq::<char>::empty());
        }
        out.append(args[i].as_str());
        assert(out@ =~= join_words(words));
        i = i + 1;
    }
    assert(arg_texts(args@).subrange(1, n as int) =~= arg_texts(args@).drop_first());
    out
}

/// Parses the arguments of an `add` command (the command word first) into
/// the task's description.
pub fn parse_add_command(args: &[String]) -> (res: Result<String, AddCommandError>)
    ensures
        args@.len() < 2 ==> res == Err::<String, AddCommandError>(
            AddCommandError::MissingDescription,
        ),
        args@.len() >= 2 && task_description(arg_texts(args@)).len() == 0 ==> res == Err::<
            String,
            AddCommandError,
        >(AddCommandError::EmptyDescription),
        args@.len() >= 2 && task_description(arg_texts(args@)).len() > 0 ==> res is Ok
            && res->Ok_0@ == task_description(arg_texts(args@)),
{
    if args.len() < 2 {
        return Err(AddCommandError::MissingDescription);
    }
    let task = join_args(args);
    let task = trim_char(task.as_str(), '"');
    let task = trim_char(task.as_str(), '\'');
    proof {
        assert(arg_texts(args@).drop_first() == arg_texts(args@.drop_first()));
    }
    if task.as_str().unicode_len() == 0 {
        return Err(AddCommandError::EmptyDescription);
    }
    Ok(task)
}

} // verus!
