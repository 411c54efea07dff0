use vstd::prelude::*;
use vstd::string::*;

use crate::decimal::{append_padded, padded};
use crate::web_player::resource::{LyricLine, Lyrics};

verus! {

/// Lyrics rendered in the LRC text format, one `[MM:SS.mmm] words` line per lyric line.
pub struct Lrc {
    lyrics: Lyrics,
}

impl View for Lrc {
    type V = Seq<LyricLine>;

    closed spec fn view(&self) -> Seq<LyricLine> {
        self.lyrics.lines@
    }
}

/// The `[MM:SS.mmm]` tag of an offset: whole minutes (at least two digits, never capped),
/// seconds within the minute (two digits) and milliseconds within the second (three digits).
pub open spec fn time_tag(ms: u64) -> Seq<char> {
    seq!['['] + padded((ms / 60000) as nat, 2) + seq![':'] + padded(((ms / 1000) % 60) as nat, 2)
        + seq!['.'] + padded((ms % 1000) as nat, 3) + seq![']']
}

/// One rendered line: the time tag, a space, the words and a line feed.
pub open spec fn lrc_line(line: LyricLine) -> Seq<char> {
    time_tag(line.start_time) + seq![' '] + line.words@ + seq!['\n']
}

/// The rendering of a sequence of lines, in their order.
pub open spec fn lrc_text(lines: Seq<LyricLine>) -> Seq<char>
    decreases lines.len(),
{
    if lines.len() == 0 {
        Seq::empty()
    } else {
        lrc_text(lines.drop_last()) + lrc_line(lines.last())
    }
}

impl Lrc {
    pub fn new(lyrics: Lyrics) -> (r: Self)
        ensures
            r@ == lyrics.lines@,
    {
        Self { lyrics }
    }

    /// The whole LRC text, one line per lyric line, in the order of the lyrics.
    pub fn to_text(&self) -> (r: String)
        ensures
            r@ == lrc_text(self@),
    {
        let lines = &self.lyrics.lines;
        let mut out = String::new();
        let mut i: usize = 0;
        while i < lines.len()
            invariant
                i <= lines@.len(),
                lines@ == self@,
                out@ == lrc_text(lines@.subrange(0, i as int)),
            decreases lines.len() - i,
        {
            let line = &lines[i];
            append_time_tag(&mut out, line.start_time);
            out.append(" ");
            out.append(line.words.as_str());
            out.append("\n");
            proof {
                reveal_strlit(" ");
                reveal_strlit("\n");
                let next = lines@.subrange(0, i + 1);
                assert(next.drop_last() =~= lines@.subrange(0, i as int));
                assert(next.last() == lines@[i as int]);
            }
            assert(out@ =~= lrc_text(lines@.subrange(0, i + 1)));
            i = i + 1;
        }
        assert(lines@.subrange(0, i as int) =~= lines@);
        out
    }
}

/// Splits an offset in milliseconds into whole minutes, seconds within the minute and
/// milliseconds within the second.
pub fn calc_readable_time(ms: u64) -> (r: (u64, u64, u64))
    ensures
        r == (ms / 60000, (ms / 1000) % 60, ms % 1000),
        r.0 * 60000 + r.1 * 1000 + r.2 == ms,
{
    let millis = ms % 1000;
    let sec = ms / 1000 % 60;
    let min = ms / 60000;
    assert(min * 60000 + sec * 1000 + millis == ms) by (nonlinear_arith)
        requires
            millis == ms % 1000,
            sec == ms / 1000 % 60,
            min == ms / 60000,
    {
        assert(ms / 60000 == (ms / 1000) / 60) by (nonlinear_arith);
    }
    (min, sec, millis)
}

fn append_time_tag(out: &mut String, ms: u64)
    ensures
        final(out)@ == old(out)@ + time_tag(ms),
{
    let (min, sec, millis) = calc_readable_time(ms);
    out.append("[");
    append_padded(out, min, 2);
    out.append(":");
    append_padded(out, sec, 2);
    out.append(".");
    append_padded(out, millis, 3);
    out.append("]");
    proof {
        reveal_strlit("[");
        reveal_strlit(":");
        reveal_strlit(".");
        reveal_strlit("]");
    }
    assert(final(out)@ =~= old(out)@ + time_tag(ms));
}

/// The `[MM:SS.mmm]` tag of an offset in milliseconds.
pub fn format_time_tag(ms: u64) -> (r: String)
    ensures
        r@ == time_tag(ms),
{
    let mut r = String::new();
    append_time_tag(&mut r, ms);
    assert(r@ =~= time_tag(ms));
    r
}

} // verus!
