//! Reading what ffmpeg prints.
use vstd::prelude::*;
use crate::text::{
    char_is_white_space, chars_of, is_white_space, lemma_split_step, split_on, str_eq, string_from_chars, trim,
    trim_range,
};
use crate::tiktok::EncoderInfo;

verus! {

/// The pieces of `s` that `str::lines` splits off, before it removes the `\r`
/// of `\r\n` endings: the text between `\n`s, without a last empty piece.
pub open spec fn line_pieces(s: Seq<char>) -> Seq<Seq<char>> {
    let p = split_on(s, '\n');
    if p.last().len() == 0 {
        p.drop_last()
    } else {
        p
    }
}

/// The lines of `s` as `str::lines` yields them, each trimmed of white space.
/// A carriage return is white space, so trimming also removes the `\r` that
/// `str::lines` strips from `\r\n` endings.
pub open spec fn trimmed_lines(s: Seq<char>) -> Seq<Seq<char>> {
    line_pieces(s).map_values(|l: Seq<char>| trim(l))
}

/// The lines that follow the first `------` line; none when there is no such line.
pub open spec fn after_marker(lines: Seq<Seq<char>>) -> Seq<Seq<char>>
    decreases lines.len(),
{
    if lines.len() == 0 {
        Seq::empty()
    } else if lines[0] == "------"@ {
        lines.drop_first()
    } else {
        after_marker(lines.drop_first())
    }
}

/// The lines of `s`, trimmed, as views.
fn trimmed_line_strings(s: &str) -> (r: Vec<String>)
    ensures
        r@.len() == trimmed_lines(s@).len(),
        forall|i: int| 0 <= i < r@.len() ==> (#[trigger] r@[i])@ == trimmed_lines(s@)[i],
{
    let chars = chars_of(s);
    let n = chars.len();
    let mut out: Vec<String> = Vec::new();
    let mut start: usize = 0;
    let mut i: usize = 0;
    proof {
        assert(chars@.take(0) =~= Seq::<char>::empty());
        assert(chars@.subrange(0, 0) =~= Seq::<char>::empty());
    }
    while i < n
        invariant
            chars@ == s@,
            n == chars@.len(),
            start <= i <= n,
            split_on(chars@.take(i as int), '\n').len() > 0,
            split_on(chars@.take(i as int), '\n').last() == chars@.subrange(start as int, i as int),
            out@.len() == split_on(chars@.take(i as int), '\n').len() - 1,
            forall|k: int|
                0 <= k < out@.len() ==> (#[trigger] out@[k])@ == trim(split_on(chars@.take(i as int), '\n')[k]),
        decreases n - i,
    {
        proof {
            lemma_split_step(chars@, '\n', i as int);
        }
        let ghost prev = split_on(chars@.take(i as int), '\n');
        if chars[i] == '\n' {
            let (a, b) = trim_range(&chars, start, i);
            let line = string_from_chars(chars.as_slice(), a, b);
            let ghost before = out@;
            out.push(line);
            proof {
                let next = split_on(chars@.take(i + 1), '\n');
                assert forall|k: int| 0 <= k < out@.len() implies (#[trigger] out@[k])@ == trim(next[k]) by {
                    if k < before.len() {
                        assert(out@[k] == before[k]);
                        assert(next[k] == prev[k]);
                    } else {
                        assert(next[k] == prev.last());
                    }
                }
                assert(next.last() =~= chars@.subrange(i + 1, i + 1));
            }
            start = i + 1;
        } else {
            proof {
                let next = split_on(chars@.take(i + 1), '\n');
                assert forall|k: int| 0 <= k < out@.len() implies (#[trigger] out@[k])@ == trim(next[k]) by {
                    assert(next[k] == prev[k]);
                }
                assert(next.last() =~= chars@.subrange(start as int, i + 1));
            }
        }
        i = i + 1;
    }
    let ghost all = split_on(chars@.take(i as int), '\n');
    proof {
        assert(chars@.take(i as int) =~= s@);
    }
    if start < n {
        let (a, b) = trim_range(&chars, start, n);
        let line = string_from_chars(chars.as_slice(), a, b);
        let ghost before = out@;
        out.push(line);
        proof {
            assert forall|k: int| 0 <= k < out@.len() implies (#[trigger] out@[k])@ == trimmed_lines(s@)[k] by {
                if k < before.len() {
                    assert(out@[k] == before[k]);
                }
            }
        }
    } else {
        proof {
            assert forall|k: int| 0 <= k < out@.len() implies (#[trigger] out@[k])@ == trimmed_lines(s@)[k] by {
                assert(all.drop_last()[k] == all[k]);
            }
        }
    }
    out
}

/// The encoder lines of what `ffmpeg -hide_banner -encoders` prints: the
/// trimmed lines after the `------` line that ends the legend.
pub fn encoder_lines(stdout: &str) -> (r: Vec<String>)
    ensures
        r@.len() == after_marker(trimmed_lines(stdout@)).len(),
        forall|i: int| 0 <= i < r@.len() ==> (#[trigger] r@[i])@ == after_marker(trimmed_lines(stdout@))[i],
{
    let lines = trimmed_line_strings(stdout);
    let ghost all = trimmed_lines(stdout@);
    let mut i: usize = 0;
    assert(all.skip(0) =~= all);
    while i < lines.len()
        invariant
            all == trimmed_lines(stdout@),
            lines@.len() == all.len(),
            forall|k: int| 0 <= k < lines@.len() ==> (#[trigger] lines@[k])@ == all[k],
            i <= lines@.len(),
            after_marker(all) == after_marker(all.skip(i as int)),
        decreases lines@.len() - i,
    {
        assert(all.skip(i as int)[0] == all[i as int]);
        assert(all.skip(i as int).drop_first() =~= all.skip(i + 1));
        if str_eq(lines[i].as_str(), "------") {
            let mut out: Vec<String> = Vec::new();
            let mut j = i + 1;
            while j < lines.len()
                invariant
                    all == trimmed_lines(stdout@),
                    lines@.len() == all.len(),
                    forall|k: int| 0 <= k < lines@.len() ==> (#[trigger] lines@[k])@ == all[k],
                    i < j <= lines@.len(),
                    after_marker(all) == all.skip(i + 1),
                    out@.len() == j - i - 1,
                    forall|k: int| 0 <= k < out@.len() ==> (#[trigger] out@[k])@ == all[i + 1 + k],
                decreases lines@.len() - j,
            {
                out.push(String::from_str(lines[j].as_str()));
                j = j + 1;
            }
            assert(out@.len() == all.skip(i + 1).len());
            return out;
        }
        i = i + 1;
    }
    Vec::new()
}

/// Why an encoder line could not be read.
#[derive(Debug, Copy, Clone, PartialEq, Eq, Structural)]
pub enum EncoderLineError {
    /// The line is blank: it has no capability flags.
    MissingFlags,
    /// Nothing follows the flags.
    MissingName,
    /// Nothing follows the name.
    MissingDescription,
}

/// The first position at or after `i` that is not white space (or the end).
pub open spec fn skip_white_space(s: Seq<char>, i: int) -> int
    decreases s.len() - i,
{
    if 0 <= i < s.len() && is_white_space(s[i]) {
        skip_white_space(s, i + 1)
    } else {
        i
    }
}

/// The first position at or after `i` that is white space (or the end).
pub open spec fn skip_word(s: Seq<char>, i: int) -> int
    decreases s.len() - i,
{
    if 0 <= i < s.len() && !is_white_space(s[i]) {
        skip_word(s, i + 1)
    } else {
        i
    }
}

/// An encoder line of `ffmpeg -encoders`, as in
/// `V....D libx264  libx264 H.264 / AVC / MPEG-4 AVC (codec h264)`: the
/// capability flags, the name and the description, separated by white space.
/// Yields the name and the description (trimmed), or what is missing.
pub open spec fn encoder_line_spec(l: Seq<char>) -> Result<(Seq<char>, Seq<char>), EncoderLineError> {
    let f0 = skip_white_space(l, 0);
    let f1 = skip_word(l, f0);
    let n0 = skip_white_space(l, f1);
    let n1 = skip_word(l, n0);
    let d = trim(l.subrange(n1, l.len() as int));
    if f1 == f0 {
        Err(EncoderLineError::MissingFlags)
    } else if n1 == n0 {
        Err(EncoderLineError::MissingName)
    } else if d.len() == 0 {
        Err(EncoderLineError::MissingDescription)
    } else {
        Ok((l.subrange(n0, n1), d))
    }
}

/// The name and description of an encoder.
pub open spec fn encoder_view(e: EncoderInfo) -> (Seq<char>, Seq<char>) {
    (e.name@, e.description@)
}

/// The encoders that a list of encoder lines describes, in order, or the
/// error of the first line that cannot be read.
pub open spec fn encoders_spec(lines: Seq<Seq<char>>) -> Result<Seq<(Seq<char>, Seq<char>)>, EncoderLineError>
    decreases lines.len(),
{
    if lines.len() == 0 {
        Ok(Seq::empty())
    } else {
        match encoders_spec(lines.drop_last()) {
            Err(e) => Err(e),
            Ok(v) => match encoder_line_spec(lines.last()) {
                Ok(x) => Ok(v.push(x)),
                Err(e) => Err(e),
            },
        }
    }
}

fn skip_white_space_at(chars: &Vec<char>, i: usize) -> (r: usize)
    requires
        i <= chars@.len(),
    ensures
        r as int == skip_white_space(chars@, i as int),
        i <= r <= chars@.len(),
{
    let mut j = i;
    while j < chars.len() && char_is_white_space(chars[j])
        invariant
            i <= j <= chars@.len(),
            skip_white_space(chars@, i as int) == skip_white_space(chars@, j as int),
        decreases chars@.len() - j,
    {
        j = j + 1;
    }
    j
}

fn skip_word_at(chars: &Vec<char>, i: usize) -> (r: usize)
    requires
        i <= chars@.len(),
    ensures
        r as int == skip_word(chars@, i as int),
        i <= r <= chars@.len(),
{
    let mut j = i;
    while j < chars.len() && !char_is_white_space(chars[j])
        invariant
            i <= j <= chars@.len(),
            skip_word(chars@, i as int) == skip_word(chars@, j as int),
        decreases chars@.len() - j,
    {
        j = j + 1;
    }
    j
}

/// Reads one encoder line (see [`encoder_line_spec`]).
pub fn parse_encoder_line(line: &str) -> (r: Result<EncoderInfo, EncoderLineError>)
    ensures
        match r {
            Ok(e) => encoder_line_spec(line@) == Ok::<_, EncoderLineError>(encoder_view(e)),
            Err(x) => encoder_line_spec(line@) == Err::<(Seq<char>, Seq<char>), _>(x),
        },
{
    let chars = chars_of(line);
    let n = chars.len();
    let f0 = skip_white_space_at(&chars, 0);
    let f1 = skip_word_at(&chars, f0);
    let n0 = skip_white_space_at(&chars, f1);
    let n1 = skip_word_at(&chars, n0);
    let (d0, d1) = trim_range(&chars, n1, n);
    if f1 == f0 {
        Err(EncoderLineError::MissingFlags)
    } else if n1 == n0 {
        Err(EncoderLineError::MissingName)
    } else if d1 == d0 {
        Err(EncoderLineError::MissingDescription)
    } else {
        let name = string_from_chars(chars.as_slice(), n0, n1);
        let description = string_from_chars(chars.as_slice(), d0, d1);
        Ok(EncoderInfo { name, description })
    }
}

/// Reads the encoder lines of what `ffmpeg -hide_banner -encoders` prints
/// (see [`encoder_lines`]): all the encoders in order, or the error of the
/// first line that cannot be read.
pub fn encoders_from_listing(stdout: &str) -> (r: Result<Vec<EncoderInfo>, EncoderLineError>)
    ensures
        match r {
            Ok(v) => encoders_spec(after_marker(trimmed_lines(stdout@))) == Ok::<_, EncoderLineError>(
                v@.map_values(|e: EncoderInfo| encoder_view(e)),
            ),
            Err(x) => encoders_spec(after_marker(trimmed_lines(stdout@))) == Err::<
                Seq<(Seq<char>, Seq<char>)>,
                _,
            >(x),
        },
{
    let lines = encoder_lines(stdout);
    let ghost all = after_marker(trimmed_lines(stdout@));
    let ghost views = lines@.map_values(|l: String| l@);
    proof {
        assert(views =~= all);
    }
    let mut out: Vec<EncoderInfo> = Vec::new();
    let mut i: usize = 0;
    proof {
        assert(all.take(0) =~= Seq::<Seq<char>>::empty());
        assert(out@.map_values(|e: EncoderInfo| encoder_view(e)) =~= Seq::<(Seq<char>, Seq<char>)>::empty());
    }
    while i < lines.len()
        invariant
            all == after_marker(trimmed_lines(stdout@)),
            lines@.len() == all.len(),
            forall|k: int| 0 <= k < lines@.len() ==> (#[trigger] lines@[k])@ == all[k],
            i <= lines@.len(),
            encoders_spec(all.take(i as int)) == Ok::<_, EncoderLineError>(
                out@.map_values(|e: EncoderInfo| encoder_view(e)),
            ),
        decreases lines@.len() - i,
    {
        let ghost prefix = all.take(i + 1);
        proof {
            assert(prefix.drop_last() =~= all.take(i as int));
            assert(prefix.last() == all[i as int]);
        }
        match parse_encoder_line(lines[i].as_str()) {
            Ok(e) => {
                let ghost before = out@;
                out.push(e);
                proof {
                    assert(out@.map_values(|e: EncoderInfo| encoder_view(e)) =~= before.map_values(
                        |e: EncoderInfo| encoder_view(e),
                    ).push(encoder_view(e)));
                }
            },
            Err(x) => {
                proof {
                    lemma_encoders_error_stays(all, i as int + 1);
                }
                return Err(x);
            },
        }
        i = i + 1;
    }
    proof {
        assert(all.take(i as int) =~= all);
    }
    Ok(out)
}

/// Once a prefix of the lines holds a line that cannot be read, every longer
/// prefix fails with the same error.
proof fn lemma_encoders_error_stays(lines: Seq<Seq<char>>, n: int)
    requires
        0 <= n <= lines.len(),
        encoders_spec(lines.take(n)) is Err,
    ensures
        encoders_spec(lines) == encoders_spec(lines.take(n)),
    decreases lines.len() - n,
{
    if n < lines.len() {
        let longer = lines.take(n + 1);
        assert(longer.drop_last() =~= lines.take(n));
        lemma_encoders_error_stays(lines, n + 1);
    } else {
        assert(lines.take(n) =~= lines);
    }
}

} // verus!
