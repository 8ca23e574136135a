use vstd::prelude::*;
use vstd::string::StrSliceExecFns;
use crate::casing::lower_of;
use crate::casing::to_lowercase;
use crate::directory::ZoneDirectory;

verus! {

/// The Unicode whitespace characters, the same set that
/// `char::is_whitespace` recognizes and `str::split_whitespace` splits
/// on.
pub open spec fn is_ws_char(c: char) -> bool {
    let u = c as u32;
    u == 0x20 || (0x09 <= u && u <= 0x0D) || u == 0x85 || u == 0xA0 || u == 0x1680 || (0x2000 <= u
        && u <= 0x200A) || u == 0x2028 || u == 0x2029 || u == 0x202F || u == 0x205F || u == 0x3000
}

fn is_whitespace_char(c: char) -> (r: bool)
    ensures
        r == is_ws_char(c),
{
    let u = c as u32;
    u == 0x20 || (0x09 <= u && u <= 0x0D) || u == 0x85 || u == 0xA0 || u == 0x1680 || (0x2000 <= u
        && u <= 0x200A) || u == 0x2028 || u == 0x2029 || u == 0x202F || u == 0x205F || u == 0x3000
}

/// The first position at or after `i` holding a non-whitespace
/// character, or the end of the line.
pub open spec fn skip_ws(line: Seq<char>, i: int) -> int
    decreases line.len() - i,
{
    if i < 0 || i >= line.len() {
        line.len() as int
    } else if !is_ws_char(line[i]) {
        i
    } else {
        skip_ws(line, i + 1)
    }
}

/// The first position at or after `i` holding a whitespace character,
/// or the end of the line: the end of the token starting at `i`.
pub open spec fn skip_token(line: Seq<char>, i: int) -> int
    decreases line.len() - i,
{
    if i < 0 || i >= line.len() {
        line.len() as int
    } else if is_ws_char(line[i]) {
        i
    } else {
        skip_token(line, i + 1)
    }
}

/// What a single config line contributes: the lowercased first token as
/// the name and the second token as the zone, or nothing when the line
/// has fewer than two tokens.  Tokens past the second are ignored.
pub open spec fn line_entry(line: Seq<char>) -> Option<(Seq<char>, Seq<char>)> {
    let a = skip_ws(line, 0);
    if a == line.len() {
        None
    } else {
        let b = skip_token(line, a);
        let c = skip_ws(line, b);
        if c == line.len() {
            None
        } else {
            let d = skip_token(line, c);
            Some((lower_of(line.subrange(a, b)), line.subrange(c, d)))
        }
    }
}

/// The position of the first line break at or after `i`, or the end of
/// the text.
pub open spec fn line_break(text: Seq<char>, i: int) -> int
    decreases text.len() - i,
{
    if i < 0 || i >= text.len() {
        text.len() as int
    } else if text[i] == '\n' {
        i
    } else {
        line_break(text, i + 1)
    }
}

/// The text split at its line breaks.  A trailing newline contributes a
/// final empty line, which carries no tokens and so no entry.
pub open spec fn lines_of(text: Seq<char>) -> Seq<Seq<char>>
    decreases text.len(),
{
    let k = line_break(text, 0);
    if 0 <= k && k < text.len() {
        seq![text.subrange(0, k)] + lines_of(text.subrange(k + 1, text.len() as int))
    } else {
        seq![text]
    }
}

/// The directory that a sequence of lines denotes, processed in order:
/// a later line for the same name overwrites the earlier entry.
pub open spec fn directory_of_lines(lines: Seq<Seq<char>>) -> Map<Seq<char>, Seq<char>>
    decreases lines.len(),
{
    if lines.len() == 0 {
        Map::empty()
    } else {
        let rest = directory_of_lines(lines.drop_last());
        match line_entry(lines.last()) {
            Some(entry) => rest.insert(entry.0, entry.1),
            None => rest,
        }
    }
}

/// The directory denoted by a whole config text.
pub open spec fn parsed_config(text: Seq<char>) -> Map<Seq<char>, Seq<char>> {
    directory_of_lines(lines_of(text))
}

fn scan_ws_end(line: &str, start: usize) -> (r: usize)
    requires
        start <= line@.len(),
    ensures
        r as int == skip_ws(line@, start as int),
        start <= r <= line@.len(),
{
    let m = line.unicode_len();
    let mut i: usize = start;
    while i < m && is_whitespace_char(line.get_char(i))
        invariant
            start <= i <= m,
            m == line@.len(),
            skip_ws(line@, start as int) == skip_ws(line@, i as int),
        decreases m - i,
    {
        i = i + 1;
    }
    i
}

fn scan_token_end(line: &str, start: usize) -> (r: usize)
    requires
        start <= line@.len(),
    ensures
        r as int == skip_token(line@, start as int),
        start <= r <= line@.len(),
{
    let m = line.unicode_len();
    let mut i: usize = start;
    while i < m && !is_whitespace_char(line.get_char(i))
        invariant
            start <= i <= m,
            m == line@.len(),
            skip_token(line@, start as int) == skip_token(line@, i as int),
        decreases m - i,
    {
        i = i + 1;
    }
    i
}

fn find_newline(text: &str) -> (r: usize)
    ensures
        r as int == line_break(text@, 0),
        r <= text@.len(),
{
    let m = text.unicode_len();
    let mut i: usize = 0;
    while i < m && text.get_char(i) != '\n'
        invariant
            i <= m,
            m == text@.len(),
            line_break(text@, 0) == line_break(text@, i as int),
        decreases m - i,
    {
        i = i + 1;
    }
    i
}

/// Adds one config line's contribution to the directory: nothing for a
/// blank or single-token line, the lowercased name mapped to the zone
/// token otherwise.
fn apply_line(dir: &mut ZoneDirectory, line: &str)
    ensures
        final(dir)@ == (match line_entry(line@) {
            Some(entry) => old(dir)@.insert(entry.0, entry.1),
            None => old(dir)@,
        }),
{
    let m = line.unicode_len();
    let a = scan_ws_end(line, 0);
    if a == m {
        return ;
    }
    let b = scan_token_end(line, a);
    let c = scan_ws_end(line, b);
    if c == m {
        return ;
    }
    let d = scan_token_end(line, c);
    let name = line.substring_char(a, b);
    let zone = line.substring_char(c, d);
    let lowered = to_lowercase(name);
    dir.insert(lowered, zone.to_owned());
}

/// Parses a config text into a directory: one whitespace-separated
/// `NAME ZONE` pair per line, names lowercased, later duplicates
/// overwriting earlier ones, and any line with fewer than two tokens
/// contributing nothing.  Parsing never fails.
pub fn parse_config(config: &str) -> (r: ZoneDirectory)
    ensures
        r@ == parsed_config(config@),
{
    let mut dir = ZoneDirectory::new();
    let mut rest: &str = config;
    let ghost mut done: Seq<Seq<char>> = Seq::empty();
    proof {
        assert(Seq::<Seq<char>>::empty() + lines_of(config@) =~= lines_of(config@));
    }
    loop
        invariant
            dir@ == directory_of_lines(done),
            lines_of(config@) == done + lines_of(rest@),
        decreases rest@.len(),
    {
        let m = rest.unicode_len();
        let k = find_newline(rest);
        let line = rest.substring_char(0, k);
        apply_line(&mut dir, line);
        let ghost old_done = done;
        proof {
            done = done.push(line@);
            assert(done.drop_last() =~= old_done);
        }
        if k == m {
            proof {
                assert(line@ =~= rest@);
                assert(lines_of(rest@) == seq![rest@]);
                assert(lines_of(config@) =~= done);
            }
            return dir;
        }
        let next = rest.substring_char(k + 1, m);
        proof {
            assert(lines_of(rest@) == seq![line@] + lines_of(next@));
            assert(done + lines_of(next@) =~= old_done + lines_of(rest@));
        }
        rest = next;
    }
}

/// A line with fewer than two tokens contributes no entry, and the lines
/// around it parse exactly as if it were absent.
pub proof fn lemma_skipped_line(before: Seq<Seq<char>>, line: Seq<char>, after: Seq<Seq<char>>)
    requires
        line_entry(line) is None,
    ensures
        directory_of_lines(before + seq![line] + after) == directory_of_lines(before + after),
    decreases after.len(),
{
    if after.len() == 0 {
        assert(before + seq![line] + after =~= before.push(line));
        assert(before + after =~= before);
        assert(before.push(line).drop_last() =~= before);
    } else {
        lemma_skipped_line(before, line, after.drop_last());
        assert((before + seq![line] + after).drop_last() =~= before + seq![line]
            + after.drop_last());
        assert((before + after).drop_last() =~= before + after.drop_last());
        assert((before + seq![line] + after).last() == after.last());
        assert((before + after).last() == after.last());
    }
}

/// A later line for a duplicate name wins: whatever an earlier line
/// recorded for the same lowercased name, and whatever the lines between
/// them did, the final directory maps that name to the later line's
/// zone.
pub proof fn lemma_duplicate_name_last_wins(
    earlier: Seq<Seq<char>>,
    first_line: Seq<char>,
    between: Seq<Seq<char>>,
    second_line: Seq<char>,
    name: Seq<char>,
    zone1: Seq<char>,
    zone2: Seq<char>,
)
    requires
        line_entry(first_line) == Some((name, zone1)),
        line_entry(second_line) == Some((name, zone2)),
    ensures
        directory_of_lines(earlier.push(first_line) + between + seq![second_line]).contains_key(
            name,
        ),
        directory_of_lines(earlier.push(first_line) + between + seq![second_line])[name] == zone2,
{
    let all = earlier.push(first_line) + between + seq![second_line];
    assert(all.drop_last() =~= earlier.push(first_line) + between);
    assert(all.last() == second_line);
}

} // verus!
