//! The line tokenizer: splits a raw input line into tokens under shell-like
//! quoting rules.
//!
//! Whitespace separates tokens; a double-quoted substring is part of a single
//! token with the quotes stripped; an unterminated quote is tolerated by
//! treating the remainder of the line as a single token. Tokenizing never
//! fails: rejecting malformed input is the argument binder's job.

use vstd::prelude::*;
use vstd::string::*;

use crate::text::{is_whitespace_char, is_ws, push_char};

verus! {

/// The views of a sequence of strings.
pub open spec fn seq_views(s: Seq<String>) -> Seq<Seq<char>> {
    s.map_values(|x: String| x@)
}

/// The tokenizer's state after reading a prefix of the line: the tokens
/// already closed, the token being collected (if any), and whether the
/// reading position is inside a double-quoted substring.
pub struct TokState {
    pub done: Seq<Seq<char>>,
    pub cur: Option<Seq<char>>,
    pub in_quote: bool,
}

/// The state before any character is read.
pub open spec fn tok_init() -> TokState {
    TokState { done: Seq::empty(), cur: None, in_quote: false }
}

/// The token being collected, or the empty token if none is open yet.
pub open spec fn cur_or_empty(cur: Option<Seq<char>>) -> Seq<char> {
    match cur {
        Some(t) => t,
        None => Seq::empty(),
    }
}

/// One step of the tokenizer: how reading one character changes the state.
pub open spec fn tok_step(st: TokState, c: char) -> TokState {
    if st.in_quote {
        if c == '"' {
            TokState { in_quote: false, ..st }
        } else {
            TokState { cur: Some(cur_or_empty(st.cur).push(c)), ..st }
        }
    } else if c == '"' {
        TokState { cur: Some(cur_or_empty(st.cur)), in_quote: true, ..st }
    } else if is_ws(c) {
        match st.cur {
            Some(t) => TokState { done: st.done.push(t), cur: None, ..st },
            None => st,
        }
    } else {
        TokState { cur: Some(cur_or_empty(st.cur).push(c)), ..st }
    }
}

/// The tokenizer's state after reading the whole of `s`.
pub open spec fn tok_run(s: Seq<char>) -> TokState
    decreases s.len(),
{
    if s.len() == 0 {
        tok_init()
    } else {
        tok_step(tok_run(s.drop_last()), s.last())
    }
}

/// Closing the final state: an open token (quoted or not) still counts.
pub open spec fn tok_finish(st: TokState) -> Seq<Seq<char>> {
    match st.cur {
        Some(t) => st.done.push(t),
        None => st.done,
    }
}

/// The token sequence of a line. The first token is the command name; the
/// rest are its argument tokens. An empty or whitespace-only line has no
/// tokens.
pub open spec fn spec_tokens(s: Seq<char>) -> Seq<Seq<char>> {
    tok_finish(tok_run(s))
}

/// Splits a line into tokens under the shell-like quoting rules above.
/// Never fails; an empty or whitespace-only line yields no tokens.
pub fn tokenize(line: &str) -> (tokens: Vec<String>)
    ensures
        seq_views(tokens@) == spec_tokens(line@),
{
    let n = line.unicode_len();
    let mut done: Vec<String> = Vec::new();
    let mut cur: String = String::new();
    let mut has_cur: bool = false;
    let mut in_quote: bool = false;
    proof {
        assert(line@.take(0) =~= Seq::<char>::empty());
        assert(seq_views(done@) =~= Seq::<Seq<char>>::empty());
    }
    for i in 0..n
        invariant
            n == line@.len(),
            in_quote ==> has_cur,
            !has_cur ==> cur@ == Seq::<char>::empty(),
            seq_views(done@) == tok_run(line@.take(i as int)).done,
            tok_run(line@.take(i as int)).cur == (if has_cur {
                Some(cur@)
            } else {
                None::<Seq<char>>
            }),
            tok_run(line@.take(i as int)).in_quote == in_quote,
    {
        let ghost pre = line@.take(i as int);
        let ghost post = line@.take(i as int + 1);
        proof {
            assert(post.drop_last() =~= pre);
            assert(post.last() == line@[i as int]);
            assert(seq_views(done@) =~= seq_views(done@));
        }
        let c = line.get_char(i);
        if in_quote {
            if c == '"' {
                in_quote = false;
            } else {
                push_char(&mut cur, c);
            }
        } else if c == '"' {
            if !has_cur {
                has_cur = true;
            }
            in_quote = true;
        } else if is_whitespace_char(c) {
            if has_cur {
                let ghost old_done = done@;
                done.push(cur);
                cur = String::new();
                has_cur = false;
                proof {
                    assert(seq_views(done@) =~= seq_views(old_done).push(done@.last()@));
                }
            }
        } else {
            if !has_cur {
                has_cur = true;
            }
            push_char(&mut cur, c);
        }
    }
    proof {
        assert(line@.take(n as int) =~= line@);
    }
    if has_cur {
        let ghost old_done = done@;
        done.push(cur);
        proof {
            assert(seq_views(done@) =~= seq_views(old_done).push(done@.last()@));
        }
    }
    done
}

/// The splitter's state after reading a prefix: the fields already closed
/// and the field being collected, if any. Unlike the tokenizer, the
/// splitter knows no quoting: completion looks at the raw words.
pub struct FieldState {
    pub done: Seq<Seq<char>>,
    pub cur: Option<Seq<char>>,
}

/// One step of the whitespace splitter.
pub open spec fn fld_step(st: FieldState, c: char) -> FieldState {
    if is_ws(c) {
        match st.cur {
            Some(t) => FieldState { done: st.done.push(t), cur: None },
            None => st,
        }
    } else {
        FieldState { done: st.done, cur: Some(cur_or_empty(st.cur).push(c)) }
    }
}

/// The splitter's state after reading the whole of `s`.
pub open spec fn fld_run(s: Seq<char>) -> FieldState
    decreases s.len(),
{
    if s.len() == 0 {
        FieldState { done: Seq::empty(), cur: None }
    } else {
        fld_step(fld_run(s.drop_last()), s.last())
    }
}

/// The maximal whitespace-free runs of a line, in order.
pub open spec fn spec_fields(s: Seq<char>) -> Seq<Seq<char>> {
    match fld_run(s).cur {
        Some(t) => fld_run(s).done.push(t),
        None => fld_run(s).done,
    }
}

/// Splits a line at whitespace into its maximal whitespace-free runs.
pub fn split_fields(line: &str) -> (fields: Vec<String>)
    ensures
        seq_views(fields@) == spec_fields(line@),
        forall|k: int| 0 <= k < fields@.len() ==> (#[trigger] fields@[k])@.len() <= line@.len(),
{
    let n = line.unicode_len();
    let mut done: Vec<String> = Vec::new();
    let mut cur: String = String::new();
    let mut has_cur: bool = false;
    proof {
        assert(line@.take(0) =~= Seq::<char>::empty());
        assert(seq_views(done@) =~= Seq::<Seq<char>>::empty());
    }
    for i in 0..n
        invariant
            n == line@.len(),
            !has_cur ==> cur@ == Seq::<char>::empty(),
            cur@.len() <= i,
            forall|k: int| 0 <= k < done@.len() ==> (#[trigger] done@[k])@.len() <= i,
            seq_views(done@) == fld_run(line@.take(i as int)).done,
            fld_run(line@.take(i as int)).cur == (if has_cur {
                Some(cur@)
            } else {
                None::<Seq<char>>
            }),
    {
        let ghost pre = line@.take(i as int);
        let ghost post = line@.take(i as int + 1);
        proof {
            assert(post.drop_last() =~= pre);
            assert(post.last() == line@[i as int]);
        }
        let c = line.get_char(i);
        if is_whitespace_char(c) {
            if has_cur {
                let ghost old_done = done@;
                done.push(cur);
                cur = String::new();
                has_cur = false;
                proof {
                    assert(seq_views(done@) =~= seq_views(old_done).push(done@.last()@));
                }
            }
        } else {
            if !has_cur {
                has_cur = true;
            }
            push_char(&mut cur, c);
        }
    }
    proof {
        assert(line@.take(n as int) =~= line@);
    }
    if has_cur {
        let ghost old_done = done@;
        done.push(cur);
        proof {
            assert(seq_views(done@) =~= seq_views(old_done).push(done@.last()@));
        }
    }
    proof {
        assert forall|k: int| 0 <= k < done@.len() implies (#[trigger] done@[k])@.len()
            <= line@.len() by {}
    }
    done
}

} // verus!
