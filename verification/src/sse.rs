//! Reading Server-Sent Events on the client side: the data that a frame
//! carries.

use vstd::prelude::*;
use crate::server::encoder::{
    data_lines, data_prefix, find_lf, lemma_next_lf_bounds, next_lf, sse_frame, without_cr, CR,
    LF,
};

verus! {

/// The data that a line of a frame carries: what follows `data:` and one
/// space, where the line begins so; nothing for any other line.
pub open spec fn data_of(line: Seq<u8>) -> Option<Seq<u8>> {
    if line.len() >= 6 && line.subrange(0, 6) == data_prefix() {
        Some(line.subrange(6, line.len() as int))
    } else if line.len() >= 5 && line.subrange(0, 5) == data_prefix().subrange(0, 5) {
        Some(line.subrange(5, line.len() as int))
    } else {
        None
    }
}

/// `so_far` with the data `more` of one more line: the lines of data are
/// joined by line feeds.
pub open spec fn joined_data(so_far: Option<Seq<u8>>, more: Option<Seq<u8>>) -> Option<Seq<u8>> {
    match more {
        None => so_far,
        Some(d) => match so_far {
            None => Some(d),
            Some(a) => Some(a + seq![LF] + d),
        },
    }
}

/// The data of the frame that begins at the place `from` of `b`, added to
/// the data `so_far` of the lines before: line by line up to the first
/// blank line or the end of `b`.
pub open spec fn data_from(b: Seq<u8>, from: int, so_far: Option<Seq<u8>>) -> Option<Seq<u8>>
    decreases b.len() - from,
{
    if from < 0 || from >= b.len() {
        so_far
    } else {
        let end = next_lf(b, from);
        let line = without_cr(b.subrange(from, end));
        if line.len() == 0 {
            so_far
        } else if end >= b.len() {
            joined_data(so_far, data_of(line))
        } else {
            proof {
                lemma_next_lf_bounds(b, from);
            }
            data_from(b, end + 1, joined_data(so_far, data_of(line)))
        }
    }
}

/// The data that the first frame of `b` carries; `None` where it has no
/// line of data.
pub open spec fn frame_data(b: Seq<u8>) -> Option<Seq<u8>> {
    data_from(b, 0, None)
}

/// Whether the bytes of `b` from `from` on begin with the first `n` bytes
/// of `data: `.
fn begins_with_prefix(b: &[u8], from: usize, to: usize, n: usize) -> (r: bool)
    requires
        from <= to <= b@.len(),
        5 <= n <= 6,
    ensures
        r == (to - from >= n && b@.subrange(from as int, to as int).subrange(0, n as int)
            == data_prefix().subrange(0, n as int)),
{
    if to - from < n {
        return false;
    }
    let ghost line = b@.subrange(from as int, to as int);
    let ok = b[from] == 100u8 && b[from + 1] == 97u8 && b[from + 2] == 116u8 && b[from + 3] == 97u8
        && b[from + 4] == 58u8 && (n == 5 || b[from + 5] == 32u8);
    proof {
        let want = data_prefix().subrange(0, n as int);
        let have = line.subrange(0, n as int);
        if ok {
            assert(have =~= want);
        } else {
            if b@[from as int] != 100u8 {
                assert(have[0] != want[0]);
            } else if b@[from + 1] != 97u8 {
                assert(have[1] != want[1]);
            } else if b@[from + 2] != 116u8 {
                assert(have[2] != want[2]);
            } else if b@[from + 3] != 97u8 {
                assert(have[3] != want[3]);
            } else if b@[from + 4] != 58u8 {
                assert(have[4] != want[4]);
            } else {
                assert(have[5] != want[5]);
            }
        }
    }
    ok
}

/// Reads the data of the first frame of `b`: what its lines carry after
/// `data:`, joined by line feeds, up to the first blank line. Gives `None`
/// where the frame has no line of data.
pub fn decode_frame(b: &[u8]) -> (r: Option<Vec<u8>>)
    ensures
        r.is_some() == frame_data(b@).is_some(),
        r matches Some(data) ==> Some(data@) == frame_data(b@),
{
    let n = b.len();
    let mut data: Vec<u8> = Vec::new();
    let mut any = false;
    let mut from: usize = 0;
    let ghost mut so_far: Option<Seq<u8>> = None;
    while from < n
        invariant
            from <= n,
            n == b@.len(),
            any == so_far.is_some(),
            any ==> so_far == Some(data@),
            !any ==> data@.len() == 0,
            frame_data(b@) == data_from(b@, from as int, so_far),
        decreases n - from,
    {
        let end = find_lf(b, from);
        let stop = if end > from && b[end - 1] == CR {
            end - 1
        } else {
            end
        };
        let ghost line = without_cr(b@.subrange(from as int, end as int));
        proof {
            assert(line =~= b@.subrange(from as int, stop as int));
            assert(data_prefix().subrange(0, 6) =~= data_prefix());
        }
        if stop == from {
            proof {
                assert(data_from(b@, n as int, so_far) == so_far);
            }
            from = n;
            continue;
        }
        let skip: usize = if begins_with_prefix(b, from, stop, 6) {
            6
        } else if begins_with_prefix(b, from, stop, 5) {
            5
        } else {
            0
        };
        if skip > 0 {
            let ghost had = data@;
            if any {
                data.push(LF);
            }
            let mut i = from + skip;
            let ghost base = data@;
            while i < stop
                invariant
                    from + skip <= i <= stop <= n,
                    n == b@.len(),
                    data@ == base + b@.subrange(from + skip, i as int),
                decreases stop - i,
            {
                data.push(b[i]);
                assert(data@ =~= base + b@.subrange(from + skip, i + 1));
                i += 1;
            }
            proof {
                let d = line.subrange(skip as int, line.len() as int);
                assert(d =~= b@.subrange(from + skip, stop as int));
                assert(data_of(line) == Some(d));
                if any {
                    assert(so_far == Some(had));
                    assert(base =~= had + seq![LF]);
                    assert(data@ =~= had + seq![LF] + d);
                } else {
                    assert(base == had);
                    assert(had =~= Seq::<u8>::empty());
                    assert(data@ =~= d);
                }
                so_far = joined_data(so_far, Some(d));
                assert(data@ =~= so_far.unwrap());
            }
            any = true;
        } else {
            proof {
                assert(data_of(line).is_none());
            }
        }
        if end >= n {
            from = n;
        } else {
            from = end + 1;
        }
    }
    if any {
        Some(data)
    } else {
        None
    }
}

/// Whether a blank line ends at the place `end` of `b`: a line feed stands
/// there after a line feed, with or without a carriage return between
/// them.
pub open spec fn blank_line_ends_at(b: Seq<u8>, end: int) -> bool {
    ||| 2 <= end <= b.len() && b[end - 1] == LF && b[end - 2] == LF
    ||| 3 <= end <= b.len() && b[end - 1] == LF && b[end - 2] == CR && b[end - 3] == LF
}

/// Where the first frame of `b` ends: just after the first blank line.
/// Gives `None` while no blank line has come in; the frame is then not
/// complete.
pub fn frame_end(b: &[u8]) -> (r: Option<usize>)
    ensures
        match r {
            Some(end) => blank_line_ends_at(b@, end as int) && forall|k: int|
                0 <= k < end ==> !blank_line_ends_at(b@, k),
            None => forall|k: int| 0 <= k <= b@.len() ==> !blank_line_ends_at(b@, k),
        },
{
    let n = b.len();
    if n < 2 {
        return None;
    }
    let mut end: usize = 2;
    loop
        invariant
            2 <= end <= n,
            n == b@.len(),
            forall|k: int| 0 <= k < end ==> !blank_line_ends_at(b@, k),
        decreases n - end,
    {
        if b[end - 1] == LF {
            if b[end - 2] == LF {
                return Some(end);
            }
            if end >= 3 && b[end - 2] == CR && b[end - 3] == LF {
                return Some(end);
            }
        }
        if end == n {
            return None;
        }
        end += 1;
    }
}

/// If no line feed stands from `from` up to `at`, and one stands at `at`,
/// the first line feed at or after `from` is the one at `at`.
proof fn lemma_next_lf_is(b: Seq<u8>, from: int, at: int)
    requires
        0 <= from <= at < b.len(),
        b[at] == LF,
        forall|k: int| from <= k < at ==> b[k] != LF,
    ensures
        next_lf(b, from) == at,
    decreases at - from,
{
    if from < at {
        lemma_next_lf_is(b, from + 1, at);
    }
}

/// Reading the frame of a JSON text gives the text back, for a text on
/// one line: one that holds no line feed and no carriage return.
proof fn lemma_single_line_round_trip(json: Seq<u8>)
    requires
        !json.contains(LF),
        !json.contains(CR),
    ensures
        frame_data(sse_frame(json)) == Some(json),
{
    let f = sse_frame(json);
    let n = json.len() as int;
    assert(f =~= data_prefix() + json + seq![LF, LF]);
    assert(f.len() == n + 8);
    assert forall|k: int| 0 <= k < n + 6 implies f[k] != LF by {
        if k >= 6 {
            assert(f[k] == json[k - 6]);
            assert(json.contains(json[k - 6]));
        }
    }
    assert(f[n + 6] == LF);
    lemma_next_lf_is(f, 0, n + 6);
    let line = f.subrange(0, n + 6);
    assert(line =~= data_prefix() + json);
    assert(line.last() != CR) by {
        if n > 0 {
            assert(line.last() == json[n - 1]);
            assert(json.contains(json[n - 1]));
        }
    }
    assert(without_cr(line) == line);
    assert(line.subrange(0, 6) =~= data_prefix());
    assert(line.subrange(6, line.len() as int) =~= json);
    assert(data_of(line) == Some(json));
    assert(f[n + 7] == LF);
    assert(next_lf(f, n + 7) == n + 7);
    assert(f.subrange(n + 7, n + 7) =~= Seq::<u8>::empty());
    assert(data_from(f, n + 7, Some(json)) == Some(json));
}


/// Where the next line feed stands does not depend on what comes before
/// the place from which it is looked for.
proof fn lemma_next_lf_shift(b: Seq<u8>, k: int, from: int)
    requires
        0 <= k <= from <= b.len(),
    ensures
        next_lf(b.subrange(k, b.len() as int), from - k) == next_lf(b, from) - k,
    decreases b.len() - from,
{
    let t = b.subrange(k, b.len() as int);
    if from < b.len() {
        assert(t[from - k] == b[from]);
        if b[from] != LF {
            lemma_next_lf_shift(b, k, from + 1);
        }
    }
}

/// The data of a frame does not depend on what comes before the frame.
proof fn lemma_data_from_shift(b: Seq<u8>, k: int, from: int, so_far: Option<Seq<u8>>)
    requires
        0 <= k <= from <= b.len(),
    ensures
        data_from(b.subrange(k, b.len() as int), from - k, so_far) == data_from(b, from, so_far),
    decreases b.len() - from,
{
    let t = b.subrange(k, b.len() as int);
    if from < b.len() {
        lemma_next_lf_shift(b, k, from);
        lemma_next_lf_bounds(b, from);
        let end = next_lf(b, from);
        assert(t.subrange(from - k, end - k) =~= b.subrange(from, end));
        let line = without_cr(b.subrange(from, end));
        if line.len() != 0 && end < b.len() {
            lemma_data_from_shift(b, k, end + 1, joined_data(so_far, data_of(line)));
        }
    }
}

/// What reading gives for a line of a frame followed by more: the data of
/// the line is joined to the data so far, and reading goes on after the
/// line.
proof fn lemma_data_line(line: Seq<u8>, rest: Seq<u8>, so_far: Option<Seq<u8>>)
    requires
        !line.contains(LF),
        !line.contains(CR),
    ensures
        data_from(data_prefix() + line + seq![LF] + rest, 0, so_far) == data_from(
            rest,
            0,
            joined_data(so_far, Some(line)),
        ),
{
    let b = data_prefix() + line + seq![LF] + rest;
    let n = line.len() as int;
    assert forall|k: int| 0 <= k < n + 6 implies b[k] != LF by {
        if k >= 6 {
            assert(b[k] == line[k - 6]);
            assert(line.contains(line[k - 6]));
        }
    }
    assert(b[n + 6] == LF);
    lemma_next_lf_is(b, 0, n + 6);
    let whole = b.subrange(0, n + 6);
    assert(whole =~= data_prefix() + line);
    assert(whole.last() != CR) by {
        if n > 0 {
            assert(whole.last() == line[n - 1]);
            assert(line.contains(line[n - 1]));
        }
    }
    assert(whole.subrange(0, 6) =~= data_prefix());
    assert(whole.subrange(6, whole.len() as int) =~= line);
    assert(data_of(whole) == Some(line));
    assert(b.subrange(n + 7, b.len() as int) =~= rest);
    if n + 7 <= b.len() {
        lemma_data_from_shift(b, n + 7, n + 7, joined_data(so_far, Some(line)));
    }
}

/// Reading the frame lines of a text from a line on, closed by a blank
/// line, gives the rest of the text from that line on, joined to the data
/// so far.
proof fn lemma_data_lines_round_trip(json: Seq<u8>, from: int, so_far: Option<Seq<u8>>)
    requires
        0 <= from < json.len(),
        !json.contains(CR),
        json.last() != LF,
    ensures
        data_from(data_lines(json, from) + seq![LF], 0, so_far) == joined_data(
            so_far,
            Some(json.subrange(from, json.len() as int)),
        ),
    decreases json.len() - from,
{
    let len = json.len() as int;
    lemma_next_lf_bounds(json, from);
    let end = next_lf(json, from);
    let line = json.subrange(from, if end >= len { len } else { end });
    assert(!line.contains(LF)) by {
        if line.contains(LF) {
            let k = choose|k: int| 0 <= k < line.len() && line[k] == LF;
            assert(json[from + k] == LF);
        }
    }
    assert(!line.contains(CR)) by {
        if line.contains(CR) {
            let k = choose|k: int| 0 <= k < line.len() && line[k] == CR;
            assert(json.contains(json[from + k]));
        }
    }
    assert(without_cr(line) == line) by {
        if line.len() > 0 {
            assert(line.contains(line.last()));
        }
    }
    let blank = seq![LF];
    assert(data_from(blank, 0, joined_data(so_far, Some(line))) == joined_data(
        so_far,
        Some(line),
    )) by {
        assert(next_lf(blank, 0) == 0);
        assert(blank.subrange(0, 0) =~= Seq::<u8>::empty());
    }
    if end >= len {
        assert(data_lines(json, from) + blank =~= data_prefix() + line + seq![LF] + blank);
        lemma_data_line(line, blank, so_far);
    } else {
        assert(json[end] == LF);
        assert(end + 1 < len);
        let rest = data_lines(json, end + 1) + blank;
        assert(data_lines(json, from) + blank =~= data_prefix() + line + seq![LF] + rest);
        lemma_data_line(line, rest, so_far);
        lemma_data_lines_round_trip(json, end + 1, joined_data(so_far, Some(line)));
        let tail = json.subrange(end + 1, len);
        assert(json.subrange(from, len) =~= line + seq![LF] + tail);
        match so_far {
            Some(a) => {
                assert(a + seq![LF] + line + seq![LF] + tail =~= a + seq![LF] + (line + seq![
                    LF,
                ] + tail));
            },
            None => {},
        }
    }
}

/// Reading the frame of a JSON text gives the text back, for a text of
/// any number of lines that holds no carriage return and does not end in
/// a line feed.
pub proof fn lemma_frame_round_trip(json: Seq<u8>)
    requires
        !json.contains(CR),
        json.len() > 0 ==> json.last() != LF,
    ensures
        frame_data(sse_frame(json)) == Some(json),
{
    if json.contains(LF) {
        lemma_data_lines_round_trip(json, 0, None);
        assert(json.subrange(0, json.len() as int) =~= json);
    } else {
        lemma_single_line_round_trip(json);
    }
}

} // verus!
