use vstd::prelude::*;

verus! {

/// The whitespace characters that separate tokens and that leading-trim
/// removes: the Unicode white-space set.
pub open spec fn is_space(c: char) -> bool {
    ||| c == ' '
    ||| c == '\t'
    ||| c == '\n'
    ||| c == '\r'
    ||| c == '\u{000B}'
    ||| c == '\u{000C}'
    ||| c == '\u{0085}'
    ||| c == '\u{00A0}'
    ||| c == '\u{1680}'
    ||| c == '\u{2000}'
    ||| c == '\u{2001}'
    ||| c == '\u{2002}'
    ||| c == '\u{2003}'
    ||| c == '\u{2004}'
    ||| c == '\u{2005}'
    ||| c == '\u{2006}'
    ||| c == '\u{2007}'
    ||| c == '\u{2008}'
    ||| c == '\u{2009}'
    ||| c == '\u{200A}'
    ||| c == '\u{2028}'
    ||| c == '\u{2029}'
    ||| c == '\u{202F}'
    ||| c == '\u{205F}'
    ||| c == '\u{3000}'
}

pub fn is_space_char(c: char) -> (r: bool)
    ensures
        r == is_space(c),
{
    c == ' ' || c == '\t' || c == '\n' || c == '\r' || c == '\u{000B}' || c == '\u{000C}' || c
        == '\u{0085}' || c == '\u{00A0}' || c == '\u{1680}' || c == '\u{2000}' || c == '\u{2001}'
        || c == '\u{2002}' || c == '\u{2003}' || c == '\u{2004}' || c == '\u{2005}' || c
        == '\u{2006}' || c == '\u{2007}' || c == '\u{2008}' || c == '\u{2009}' || c == '\u{200A}'
        || c == '\u{2028}' || c == '\u{2029}' || c == '\u{202F}' || c == '\u{205F}' || c
        == '\u{3000}'
}

/// Index of the first newline in `s`, or `s.len()` if there is none.
pub open spec fn line_end(s: Seq<char>) -> int
    decreases s.len(),
{
    if s.len() == 0 {
        0
    } else if s[0] == '\n' {
        0
    } else {
        1 + line_end(s.drop_first())
    }
}

/// Index of the first whitespace character in `s`, or `s.len()`.
pub open spec fn token_end(s: Seq<char>) -> int
    decreases s.len(),
{
    if s.len() == 0 {
        0
    } else if is_space(s[0]) {
        0
    } else {
        1 + token_end(s.drop_first())
    }
}

/// Index of the first non-whitespace character in `s`, or `s.len()`.
pub open spec fn lead_spaces(s: Seq<char>) -> int
    decreases s.len(),
{
    if s.len() == 0 {
        0
    } else if is_space(s[0]) {
        1 + lead_spaces(s.drop_first())
    } else {
        0
    }
}

/// Index of the first character of `s` that is not the mention marker, or
/// `s.len()`.
pub open spec fn lead_ats(s: Seq<char>) -> int
    decreases s.len(),
{
    if s.len() == 0 {
        0
    } else if s[0] == '@' {
        1 + lead_ats(s.drop_first())
    } else {
        0
    }
}

pub proof fn lemma_line_end_bounds(s: Seq<char>)
    ensures
        0 <= line_end(s) <= s.len(),
    decreases s.len(),
{
    if s.len() != 0 && s[0] != '\n' {
        lemma_line_end_bounds(s.drop_first());
    }
}

pub proof fn lemma_token_end_bounds(s: Seq<char>)
    ensures
        0 <= token_end(s) <= s.len(),
    decreases s.len(),
{
    if s.len() != 0 && !is_space(s[0]) {
        lemma_token_end_bounds(s.drop_first());
    }
}

pub proof fn lemma_lead_spaces_bounds(s: Seq<char>)
    ensures
        0 <= lead_spaces(s) <= s.len(),
    decreases s.len(),
{
    if s.len() != 0 && is_space(s[0]) {
        lemma_lead_spaces_bounds(s.drop_first());
    }
}

/// The usernames a single token contributes: a token beginning with the
/// mention marker contributes the token with all leading markers stripped;
/// any other token contributes nothing.
pub open spec fn token_mentions(tok: Seq<char>) -> Seq<Seq<char>> {
    if tok.len() > 0 && tok[0] == '@' {
        seq![tok.skip(lead_ats(tok))]
    } else {
        Seq::empty()
    }
}

#[via_fn]
proof fn line_tokens_from_decreases(line: Seq<char>) {
    lemma_token_end_bounds(line);
    if line.len() > 0 {
        lemma_token_end_bounds(line.drop_first());
    }
}

/// The mention usernames of one unquoted line: split on whitespace, keep
/// the tokens that begin with the mention marker, stripped of it.
pub open spec fn line_tokens_from(line: Seq<char>) -> Seq<Seq<char>>
    decreases line.len(),
    via line_tokens_from_decreases
{
    if line.len() == 0 {
        Seq::empty()
    } else if is_space(line[0]) {
        line_tokens_from(line.drop_first())
    } else {
        let e = token_end(line);
        token_mentions(line.take(e)) + line_tokens_from(line.skip(e))
    }
}

/// A quoted line: its first non-whitespace character is the quote marker.
pub open spec fn is_quoted(line: Seq<char>) -> bool {
    let i = lead_spaces(line);
    i < line.len() && line[i] == '>'
}

/// The mention usernames of one line: none if the line is quoted context,
/// else its marker-bearing tokens.
pub open spec fn line_mentions(line: Seq<char>) -> Seq<Seq<char>> {
    if is_quoted(line) {
        Seq::empty()
    } else {
        line_tokens_from(line)
    }
}

#[via_fn]
proof fn mentions_of_decreases(body: Seq<char>) {
    lemma_line_end_bounds(body);
}

/// All usernames explicitly mentioned in a comment body, in first-occurrence
/// order, duplicates kept: the body is split into lines, quoted lines are
/// discarded, and each remaining line contributes its marker-bearing tokens.
pub open spec fn mentions_of(body: Seq<char>) -> Seq<Seq<char>>
    decreases body.len(),
    via mentions_of_decreases
{
    if body.len() == 0 {
        Seq::empty()
    } else {
        let e = line_end(body);
        if e < body.len() {
            line_mentions(body.take(e)) + mentions_of(body.skip(e + 1))
        } else {
            line_mentions(body)
        }
    }
}

/// First newline at or after `j` and before `end`, or `end`.
pub(crate) fn find_line_end(s: &str, j: usize, end: usize) -> (r: usize)
    requires
        j <= end <= s@.len(),
    ensures
        j <= r <= end,
        r - j == line_end(s@.subrange(j as int, end as int)),
    decreases end - j,
{
    if j == end {
        proof {
            assert(s@.subrange(j as int, end as int) =~= Seq::<char>::empty());
        }
        j
    } else {
        let c = s.get_char(j);
        proof {
            assert(s@.subrange(j as int, end as int)[0] == s@[j as int]);
        }
        if c == '\n' {
            j
        } else {
            let r = find_line_end(s, j + 1, end);
            proof {
                assert(s@.subrange(j as int, end as int).drop_first() =~= s@.subrange(
                    j as int + 1,
                    end as int,
                ));
            }
            r
        }
    }
}

/// First whitespace character at or after `j` and before `end`, or `end`.
fn find_token_end(s: &str, j: usize, end: usize) -> (r: usize)
    requires
        j <= end <= s@.len(),
    ensures
        j <= r <= end,
        r - j == token_end(s@.subrange(j as int, end as int)),
    decreases end - j,
{
    if j == end {
        proof {
            assert(s@.subrange(j as int, end as int) =~= Seq::<char>::empty());
        }
        j
    } else {
        let c = s.get_char(j);
        proof {
            assert(s@.subrange(j as int, end as int)[0] == s@[j as int]);
        }
        if is_space_char(c) {
            j
        } else {
            let r = find_token_end(s, j + 1, end);
            proof {
                assert(s@.subrange(j as int, end as int).drop_first() =~= s@.subrange(
                    j as int + 1,
                    end as int,
                ));
            }
            r
        }
    }
}

/// First non-whitespace character at or after `j` and before `end`, or `end`.
fn find_non_space(s: &str, j: usize, end: usize) -> (r: usize)
    requires
        j <= end <= s@.len(),
    ensures
        j <= r <= end,
        r - j == lead_spaces(s@.subrange(j as int, end as int)),
    decreases end - j,
{
    if j == end {
        proof {
            assert(s@.subrange(j as int, end as int) =~= Seq::<char>::empty());
        }
        j
    } else {
        let c = s.get_char(j);
        proof {
            assert(s@.subrange(j as int, end as int)[0] == s@[j as int]);
        }
        if is_space_char(c) {
            let r = find_non_space(s, j + 1, end);
            proof {
                assert(s@.subrange(j as int, end as int).drop_first() =~= s@.subrange(
                    j as int + 1,
                    end as int,
                ));
            }
            r
        } else {
            j
        }
    }
}

/// First character at or after `j` and before `end` that is not the mention
/// marker, or `end`.
fn find_non_at(s: &str, j: usize, end: usize) -> (r: usize)
    requires
        j <= end <= s@.len(),
    ensures
        j <= r <= end,
        r - j == lead_ats(s@.subrange(j as int, end as int)),
    decreases end - j,
{
    if j == end {
        proof {
            assert(s@.subrange(j as int, end as int) =~= Seq::<char>::empty());
        }
        j
    } else {
        let c = s.get_char(j);
        proof {
            assert(s@.subrange(j as int, end as int)[0] == s@[j as int]);
        }
        if c == '@' {
            let r = find_non_at(s, j + 1, end);
            proof {
                assert(s@.subrange(j as int, end as int).drop_first() =~= s@.subrange(
                    j as int + 1,
                    end as int,
                ));
            }
            r
        } else {
            j
        }
    }
}

/// Append the mention usernames of the tokens of `s[j..end]` to `acc`.
fn scan_tokens(s: &str, j: usize, end: usize, acc: &mut Vec<String>)
    requires
        j <= end <= s@.len(),
    ensures
        final (acc).deep_view() == old(acc).deep_view() + line_tokens_from(
            s@.subrange(j as int, end as int),
        ),
    decreases end - j,
{
    if j == end {
        proof {
            assert(s@.subrange(j as int, end as int) =~= Seq::<char>::empty());
            assert(acc.deep_view() =~= acc.deep_view() + line_tokens_from(
                s@.subrange(j as int, end as int),
            ));
        }
        return ;
    }
    let c = s.get_char(j);
    proof {
        assert(s@.subrange(j as int, end as int)[0] == s@[j as int]);
    }
    if is_space_char(c) {
        scan_tokens(s, j + 1, end, acc);
        proof {
            assert(s@.subrange(j as int, end as int).drop_first() =~= s@.subrange(
                j as int + 1,
                end as int,
            ));
        }
        return ;
    }
    let e = find_token_end(s, j, end);
    let ghost line = s@.subrange(j as int, end as int);
    let ghost tok = s@.subrange(j as int, e as int);
    proof {
        lemma_token_end_bounds(line.drop_first());
        assert(e - j >= 1);
        assert(line.take(token_end(line)) =~= tok);
        assert(line.skip(token_end(line)) =~= s@.subrange(e as int, end as int));
        assert(tok[0] == s@[j as int]);
    }
    if c == '@' {
        let k = find_non_at(s, j, e);
        let name = s.substring_char(k, e).to_owned();
        proof {
            assert(tok.skip(lead_ats(tok)) =~= s@.subrange(k as int, e as int));
        }
        let ghost before = acc.deep_view();
        acc.push(name);
        proof {
            assert(acc.deep_view() =~= before + token_mentions(tok));
        }
    } else {
        proof {
            assert(token_mentions(tok) =~= Seq::<Seq<char>>::empty());
            assert(acc.deep_view() =~= acc.deep_view() + token_mentions(tok));
        }
    }
    scan_tokens(s, e, end, acc);
    proof {
        assert(acc.deep_view() =~= old(acc).deep_view() + line_tokens_from(line));
    }
}

/// Append the mention usernames of the line `s[j..end]` to `acc`.
fn scan_line(s: &str, j: usize, end: usize, acc: &mut Vec<String>)
    requires
        j <= end <= s@.len(),
    ensures
        final (acc).deep_view() == old(acc).deep_view() + line_mentions(
            s@.subrange(j as int, end as int),
        ),
{
    let ghost line = s@.subrange(j as int, end as int);
    let i = find_non_space(s, j, end);
    proof {
        lemma_lead_spaces_bounds(line);
        if i < end {
            assert(line[lead_spaces(line)] == s@[i as int]);
        }
    }
    if i < end {
        let c = s.get_char(i);
        if c == '>' {
            proof {
                assert(is_quoted(line));
                assert(acc.deep_view() =~= acc.deep_view() + line_mentions(line));
            }
            return ;
        }
    }
    proof {
        assert(!is_quoted(line));
    }
    scan_tokens(s, j, end, acc);
}

/// Append the mention usernames of all lines of `s[j..]` to `acc`.
fn scan_lines(s: &str, j: usize, acc: &mut Vec<String>)
    requires
        j <= s@.len(),
    ensures
        final (acc).deep_view() == old(acc).deep_view() + mentions_of(s@.skip(j as int)),
    decreases s@.len() - j,
{
    let n = s.unicode_len();
    let ghost rest = s@.skip(j as int);
    if j == n {
        proof {
            assert(rest =~= Seq::<char>::empty());
            assert(acc.deep_view() =~= acc.deep_view() + mentions_of(rest));
        }
        return ;
    }
    let e = find_line_end(s, j, n);
    proof {
        assert(rest =~= s@.subrange(j as int, n as int));
        assert(line_end(rest) == e - j);
        assert(rest.take(e - j) =~= s@.subrange(j as int, e as int));
    }
    scan_line(s, j, e, acc);
    if e < n {
        scan_lines(s, e + 1, acc);
        proof {
            assert(rest.skip(e - j + 1) =~= s@.skip(e as int + 1));
            assert(acc.deep_view() =~= old(acc).deep_view() + mentions_of(rest));
        }
    } else {
        proof {
            assert(rest.take(e - j) =~= rest);
            assert(acc.deep_view() =~= old(acc).deep_view() + mentions_of(rest));
        }
    }
}

/// Scan a comment body for explicit mentions: quoted lines (those whose
/// first non-whitespace character is the quote marker) contribute nothing;
/// every other line contributes its tokens that begin with the mention
/// marker, stripped of it, in order of occurrence, duplicates kept.
pub fn mention_usernames(body: &str) -> (r: Vec<String>)
    ensures
        r.deep_view() == mentions_of(body@),
{
    let mut acc: Vec<String> = Vec::new();
    proof {
        assert(acc.deep_view() =~= Seq::<Seq<char>>::empty());
    }
    scan_lines(body, 0, &mut acc);
    proof {
        assert(body@.skip(0) =~= body@);
        assert(acc.deep_view() =~= mentions_of(body@));
    }
    acc
}

} // verus!
