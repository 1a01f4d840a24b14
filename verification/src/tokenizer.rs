//! The argument tokenizer: splits a raw argument string into argv-style
//! tokens, honoring quoting.
//!
//! Splitting happens on spaces, except inside a quoted span. Either `"` or
//! `'` opens a span and only the same character closes it; the delimiters are
//! stripped from the emitted token. Consecutive unquoted spaces produce no
//! empty tokens, and an unterminated quote keeps all trailing characters in
//! the final token.

use vstd::prelude::*;

verus! {

/// The tokenizer's state after consuming a prefix of the input: the tokens
/// emitted so far, the token being accumulated, and whether a quoted span is
/// open (and by which delimiter).
pub ghost struct TokenizerState {
    pub tokens: Seq<Seq<char>>,
    pub current: Seq<char>,
    pub in_quotes: bool,
    pub quote_char: char,
}

/// The state before any character is consumed.
pub open spec fn tokenizer_init() -> TokenizerState {
    TokenizerState { tokens: Seq::empty(), current: Seq::empty(), in_quotes: false, quote_char: ' ' }
}

/// One step of the tokenizer on character `c`.
pub open spec fn tokenizer_step(st: TokenizerState, c: char) -> TokenizerState {
    if (c == '"' || c == '\'') && !st.in_quotes {
        TokenizerState { in_quotes: true, quote_char: c, ..st }
    } else if st.in_quotes && c == st.quote_char {
        TokenizerState { in_quotes: false, ..st }
    } else if c == ' ' && !st.in_quotes {
        if st.current.len() > 0 {
            TokenizerState { tokens: st.tokens.push(st.current), current: Seq::empty(), ..st }
        } else {
            st
        }
    } else {
        TokenizerState { current: st.current.push(c), ..st }
    }
}

/// The state after consuming all of `s`.
pub open spec fn tokenizer_run(s: Seq<char>) -> TokenizerState
    decreases s.len(),
{
    if s.len() == 0 {
        tokenizer_init()
    } else {
        tokenizer_step(tokenizer_run(s.drop_last()), s.last())
    }
}

/// The token sequence for input `s`: the run's emitted tokens, plus the
/// still-accumulating token if it is nonempty.
pub open spec fn tokenize(s: Seq<char>) -> Seq<Seq<char>> {
    let st = tokenizer_run(s);
    if st.current.len() > 0 {
        st.tokens.push(st.current)
    } else {
        st.tokens
    }
}

/// The token sequence for an optional raw argument string: an absent string
/// yields no tokens.
pub open spec fn tokenize_opt(s: Option<Seq<char>>) -> Seq<Seq<char>> {
    match s {
        Some(raw) => tokenize(raw),
        None => Seq::empty(),
    }
}

/// Splits a raw argument string into tokens, honoring `"`- and `'`-quoted
/// spans.
pub fn parse_args(arg_str: &str) -> (args: Vec<String>)
    ensures
        args.deep_view() == tokenize(arg_str@),
{
    let n = arg_str.unicode_len();
    let mut args: Vec<String> = Vec::new();
    let mut current = String::new();
    let mut in_quotes = false;
    let mut quote_char = ' ';

    let mut i: usize = 0;
    while i < n
        invariant
            n == arg_str@.len(),
            i <= n,
            args.deep_view() == tokenizer_run(arg_str@.subrange(0, i as int)).tokens,
            current@ == tokenizer_run(arg_str@.subrange(0, i as int)).current,
            in_quotes == tokenizer_run(arg_str@.subrange(0, i as int)).in_quotes,
            quote_char == tokenizer_run(arg_str@.subrange(0, i as int)).quote_char,
        decreases n - i,
    {
        let ghost prefix = arg_str@.subrange(0, i as int);
        let ghost next_prefix = arg_str@.subrange(0, i as int + 1);
        proof {
            assert(next_prefix.drop_last() =~= prefix);
            assert(next_prefix.last() == arg_str@[i as int]);
        }
        let c = arg_str.get_char(i);
        if (c == '"' || c == '\'') && !in_quotes {
            in_quotes = true;
            quote_char = c;
        } else if in_quotes && c == quote_char {
            in_quotes = false;
        } else if c == ' ' && !in_quotes {
            if !current.as_str().is_empty() {
                proof {
                    assert(current@.len() > 0);
                }
                args.push(current);
                current = String::new();
                proof {
                    assert(args.deep_view() =~= tokenizer_run(next_prefix).tokens);
                }
            } else {
                proof {
                    assert(current@.len() == 0);
                }
            }
        } else {
            let one = arg_str.substring_char(i, i + 1);
            proof {
                assert(one@ =~= seq![arg_str@[i as int]]);
            }
            current.append(one);
            proof {
                assert(current@ =~= tokenizer_run(next_prefix).current);
            }
        }
        i += 1;
    }

    proof {
        assert(arg_str@.subrange(0, n as int) =~= arg_str@);
    }
    if !current.as_str().is_empty() {
        proof {
            assert(current@.len() > 0);
        }
        args.push(current);
        proof {
            assert(args.deep_view() =~= tokenize(arg_str@));
        }
    } else {
        proof {
            assert(current@.len() == 0);
        }
    }
    args
}

} // verus!
