//! Words for a POSIX shell.

use crate::text::{cat3, joined, join, replace_char, replaced, views};
use vstd::prelude::*;

verus! {

/// What stands for a single quote inside single quotes: the quotes end, the quote stands
/// between double quotes, and the quotes start again.
pub open spec fn quote_mark() -> Seq<char> {
    "'\"'\"'"@
}

/// A value as one word of a shell command.
pub open spec fn shell_word(value: Seq<char>) -> Seq<char> {
    "'"@ + replaced(value, '\'', quote_mark()) + "'"@
}

/// Values as the words of a shell command.
pub open spec fn shell_words(values: Seq<Seq<char>>) -> Seq<char> {
    joined(Seq::new(values.len(), |i: int| shell_word(values[i])), " "@)
}

pub fn shell_escape(value: &str) -> (r: String)
    ensures
        r@ == shell_word(value@),
{
    let body = replace_char(value, '\'', "'\"'\"'");
    cat3("'", body.as_str(), "'")
}

pub fn shell_join(command: &Vec<String>) -> (r: String)
    ensures
        r@ == shell_words(views(command@)),
{
    let mut words: Vec<String> = Vec::new();
    let ghost want = Seq::new(command@.len(), |i: int| shell_word(views(command@)[i]));
    let mut i: usize = 0;
    while i < command.len()
        invariant
            i <= command.len(),
            want == Seq::new(command@.len(), |i: int| shell_word(views(command@)[i])),
            views(words@) == want.take(i as int),
        decreases command.len() - i,
    {
        let word = shell_escape(command[i].as_str());
        let ghost before = words@;
        words.push(word);
        assert(views(words@) =~= views(before).push(word@));
        assert(want.take(i + 1) =~= want.take(i as int).push(want[i as int]));
        i = i + 1;
    }
    assert(want.take(want.len() as int) =~= want);
    join(&words, " ")
}

/// Where a shell stands when it reads a word.
pub enum Quoting {
    Bare,
    Single,
    Double,
}

/// The characters that mean something to a shell outside quotes.
pub open spec fn bare_special(c: char) -> bool {
    c == ' ' || c == '\t' || c == '\n' || c == '|' || c == '&' || c == ';' || c == '<' || c == '>'
        || c == '(' || c == ')' || c == '$' || c == '`' || c == '\\' || c == '*' || c == '?' || c
        == '[' || c == '#' || c == '~' || c == '=' || c == '%' || c == '!' || c == '{' || c == '}'
}

/// The characters that mean something to a shell inside double quotes.
pub open spec fn double_special(c: char) -> bool {
    c == '$' || c == '`' || c == '\\' || c == '!'
}

/// The value of a word of a shell command, where the shell reads it as one word without
/// expanding anything in it.
pub open spec fn word_value(s: Seq<char>, at: Quoting) -> Option<Seq<char>>
    decreases s.len(),
{
    if s.len() == 0 {
        if at is Bare {
            Some(Seq::<char>::empty())
        } else {
            None
        }
    } else {
        let c = s[0];
        let rest = s.subrange(1, s.len() as int);
        match at {
            Quoting::Bare => if c == '\'' {
                word_value(rest, Quoting::Single)
            } else if c == '"' {
                word_value(rest, Quoting::Double)
            } else if bare_special(c) {
                None
            } else {
                with_first(c, word_value(rest, at))
            },
            Quoting::Single => if c == '\'' {
                word_value(rest, Quoting::Bare)
            } else {
                with_first(c, word_value(rest, at))
            },
            Quoting::Double => if c == '"' {
                word_value(rest, Quoting::Bare)
            } else if double_special(c) {
                None
            } else {
                with_first(c, word_value(rest, at))
            },
        }
    }
}

pub open spec fn with_first(c: char, s: Option<Seq<char>>) -> Option<Seq<char>> {
    match s {
        Some(t) => Some(seq![c] + t),
        None => None,
    }
}

proof fn replaced_first(s: Seq<char>, c: char, by: Seq<char>)
    requires
        s.len() > 0,
    ensures
        replaced(s, c, by) == (if s[0] == c {
            by
        } else {
            seq![s[0]]
        }) + replaced(s.subrange(1, s.len() as int), c, by),
    decreases s.len(),
{
    let rest = s.subrange(1, s.len() as int);
    if s.len() == 1 {
        assert(s.drop_last() =~= Seq::<char>::empty());
        assert(rest =~= Seq::<char>::empty());
        assert(replaced(s.drop_last(), c, by) =~= Seq::<char>::empty());
        assert(replaced(rest, c, by) =~= Seq::<char>::empty());
        if s[0] == c {
            assert(replaced(s, c, by) =~= by);
        } else {
            assert(replaced(s, c, by) =~= seq![s[0]]);
        }
    } else {
        replaced_first(s.drop_last(), c, by);
        assert(s.drop_last().subrange(1, s.len() - 1) =~= rest.drop_last());
        let head = if s[0] == c {
            by
        } else {
            seq![s[0]]
        };
        if s.last() == c {
            assert(head + replaced(rest.drop_last(), c, by) + by =~= head + (replaced(
                rest.drop_last(),
                c,
                by,
            ) + by));
        } else {
            assert((head + replaced(rest.drop_last(), c, by)).push(s.last()) =~= head + replaced(
                rest.drop_last(),
                c,
                by,
            ).push(s.last()));
        }
    }
}

proof fn quoted_tail(value: Seq<char>)
    ensures
        word_value(replaced(value, '\'', quote_mark()) + "'"@, Quoting::Single) == Some(value),
    decreases value.len(),
{
    reveal_strlit("'");
    reveal_strlit("'\"'\"'");
    let q = quote_mark();
    let t = replaced(value, '\'', q) + "'"@;
    if value.len() == 0 {
        assert(t =~= seq!['\'']);
        assert(t.subrange(1, 1) =~= Seq::<char>::empty());
        assert(word_value(t.subrange(1, 1), Quoting::Bare) == Some(Seq::<char>::empty()));
        assert(value =~= Seq::<char>::empty());
    } else {
        let rest = value.subrange(1, value.len() as int);
        quoted_tail(rest);
        replaced_first(value, '\'', q);
        let u = replaced(rest, '\'', q) + "'"@;
        if value[0] == '\'' {
            assert(t =~= q + u);
            let t1 = t.subrange(1, t.len() as int);
            let t2 = t1.subrange(1, t1.len() as int);
            let t3 = t2.subrange(1, t2.len() as int);
            let t4 = t3.subrange(1, t3.len() as int);
            let t5 = t4.subrange(1, t4.len() as int);
            assert(t5 =~= u);
            assert(t[0] == '\'' && t1[0] == '"' && t2[0] == '\'' && t3[0] == '"' && t4[0] == '\'');
            assert(word_value(t4, Quoting::Bare) == word_value(t5, Quoting::Single));
            assert(word_value(t3, Quoting::Double) == word_value(t4, Quoting::Bare));
            assert(word_value(t2, Quoting::Double) == with_first(
                '\'',
                word_value(t3, Quoting::Double),
            ));
            assert(word_value(t1, Quoting::Bare) == word_value(t2, Quoting::Double));
            assert(word_value(t, Quoting::Single) == word_value(t1, Quoting::Bare));
            assert(seq!['\''] + rest =~= value);
        } else {
            assert(t =~= seq![value[0]] + u);
            assert(t.subrange(1, t.len() as int) =~= u);
            assert(seq![value[0]] + rest =~= value);
        }
    }
}

/// A shell reads the word of a value as that value, whatever the value holds.
pub proof fn shell_word_keeps_the_value(value: Seq<char>)
    ensures
        word_value(shell_word(value), Quoting::Bare) == Some(value),
{
    reveal_strlit("'");
    quoted_tail(value);
    let w = shell_word(value);
    assert(w.subrange(1, w.len() as int) =~= replaced(value, '\'', quote_mark()) + "'"@);
    assert(w[0] == '\'');
}

/// A list with values put before it, where there is one.
pub open spec fn with_values(
    values: Seq<Seq<char>>,
    list: Option<Seq<Seq<char>>>,
) -> Option<Seq<Seq<char>>> {
    match list {
        Some(l) => Some(values + l),
        None => None,
    }
}

/// A word that has begun, or an empty one.
pub open spec fn begun(word: Option<Seq<char>>) -> Seq<char> {
    match word {
        Some(w) => w,
        None => Seq::<char>::empty(),
    }
}

/// The values of the words of a line, where the shell reads it as words between spaces without
/// expanding anything in them. `word` is what was read of the word that has begun.
pub open spec fn line_values(s: Seq<char>, at: Quoting, word: Option<Seq<char>>) -> Option<
    Seq<Seq<char>>,
>
    decreases s.len(),
{
    if s.len() == 0 {
        if at is Bare {
            Some(
                match word {
                    Some(w) => seq![w],
                    None => Seq::<Seq<char>>::empty(),
                },
            )
        } else {
            None
        }
    } else {
        let c = s[0];
        let rest = s.subrange(1, s.len() as int);
        match at {
            Quoting::Bare => if c == '\'' {
                line_values(rest, Quoting::Single, Some(begun(word)))
            } else if c == '"' {
                line_values(rest, Quoting::Double, Some(begun(word)))
            } else if c == ' ' {
                match word {
                    Some(w) => with_values(seq![w], line_values(rest, at, None)),
                    None => line_values(rest, at, None),
                }
            } else if bare_special(c) {
                None
            } else {
                line_values(rest, at, Some(begun(word).push(c)))
            },
            Quoting::Single => if c == '\'' {
                line_values(rest, Quoting::Bare, word)
            } else {
                line_values(rest, at, Some(begun(word).push(c)))
            },
            Quoting::Double => if c == '"' {
                line_values(rest, Quoting::Bare, word)
            } else if double_special(c) {
                None
            } else {
                line_values(rest, at, Some(begun(word).push(c)))
            },
        }
    }
}

proof fn quoted_part(value: Seq<char>, read: Seq<char>, tail: Seq<char>)
    ensures
        line_values(
            replaced(value, '\'', quote_mark()) + "'"@ + tail,
            Quoting::Single,
            Some(read),
        ) == line_values(tail, Quoting::Bare, Some(read + value)),
    decreases value.len(),
{
    reveal_strlit("'");
    reveal_strlit("'\"'\"'");
    let q = quote_mark();
    let t = replaced(value, '\'', q) + "'"@ + tail;
    if value.len() == 0 {
        assert(t =~= seq!['\''] + tail);
        assert(t.subrange(1, t.len() as int) =~= tail);
        assert(read + value =~= read);
    } else {
        let rest = value.subrange(1, value.len() as int);
        let more = read.push(value[0]);
        quoted_part(rest, more, tail);
        replaced_first(value, '\'', q);
        let u = replaced(rest, '\'', q) + "'"@ + tail;
        assert(more + rest =~= read + value);
        if value[0] == '\'' {
            assert(t =~= q + u);
            let t1 = t.subrange(1, t.len() as int);
            let t2 = t1.subrange(1, t1.len() as int);
            let t3 = t2.subrange(1, t2.len() as int);
            let t4 = t3.subrange(1, t3.len() as int);
            let t5 = t4.subrange(1, t4.len() as int);
            assert(t5 =~= u);
            assert(t[0] == '\'' && t1[0] == '"' && t2[0] == '\'' && t3[0] == '"' && t4[0] == '\'');
            assert(line_values(t4, Quoting::Bare, Some(more)) == line_values(
                t5,
                Quoting::Single,
                Some(more),
            ));
            assert(line_values(t3, Quoting::Double, Some(more)) == line_values(
                t4,
                Quoting::Bare,
                Some(more),
            ));
            assert(line_values(t2, Quoting::Double, Some(read)) == line_values(
                t3,
                Quoting::Double,
                Some(more),
            ));
            assert(line_values(t1, Quoting::Bare, Some(read)) == line_values(
                t2,
                Quoting::Double,
                Some(read),
            ));
        } else {
            assert(t =~= seq![value[0]] + u);
            assert(t.subrange(1, t.len() as int) =~= u);
        }
    }
}

proof fn quoted_word(value: Seq<char>, tail: Seq<char>)
    ensures
        line_values(shell_word(value) + tail, Quoting::Bare, None) == line_values(
            tail,
            Quoting::Bare,
            Some(value),
        ),
{
    reveal_strlit("'");
    let none = Seq::<char>::empty();
    quoted_part(value, none, tail);
    let t = shell_word(value) + tail;
    assert(t.subrange(1, t.len() as int) =~= replaced(value, '\'', quote_mark()) + "'"@ + tail);
    assert(t[0] == '\'');
    assert(none + value =~= value);
}

proof fn quoted_words(values: Seq<Seq<char>>, tail: Seq<char>)
    requires
        values.len() > 0,
    ensures
        line_values(shell_words(values) + tail, Quoting::Bare, None) == with_values(
            values.drop_last(),
            line_values(tail, Quoting::Bare, Some(values.last())),
        ),
    decreases values.len(),
{
    reveal_strlit(" ");
    let words = Seq::new(values.len(), |i: int| shell_word(values[i]));
    let last = values.last();
    quoted_word(last, tail);
    if values.len() == 1 {
        assert(shell_words(values) == shell_word(values[0]));
        if let Some(l) = line_values(tail, Quoting::Bare, Some(last)) {
            assert(values.drop_last() + l =~= l);
        }
    } else {
        let init = values.drop_last();
        let first_words = Seq::new(init.len(), |i: int| shell_word(init[i]));
        assert(words.drop_last() =~= first_words);
        let after = " "@ + (shell_word(last) + tail);
        assert(shell_words(values) + tail =~= shell_words(init) + after);
        quoted_words(init, after);
        assert(after.subrange(1, after.len() as int) =~= shell_word(last) + tail);
        assert(after[0] == ' ');
        let rest = line_values(shell_word(last) + tail, Quoting::Bare, None);
        assert(line_values(after, Quoting::Bare, Some(init.last())) == with_values(
            seq![init.last()],
            rest,
        ));
        if let Some(l) = rest {
            assert(init.drop_last() + (seq![init.last()] + l) =~= init + l);
        }
    }
}

/// A shell reads the words of values as those values, as many as there are and whatever they
/// hold.
pub proof fn shell_words_keep_the_values(values: Seq<Seq<char>>)
    ensures
        line_values(shell_words(values), Quoting::Bare, None) == Some(values),
{
    if values.len() == 0 {
        assert(shell_words(values) =~= Seq::<char>::empty());
        assert(values =~= Seq::<Seq<char>>::empty());
    } else {
        let none = Seq::<char>::empty();
        quoted_words(values, none);
        assert(shell_words(values) + none =~= shell_words(values));
        assert(values.drop_last() + seq![values.last()] =~= values);
    }
}

} // verus!
