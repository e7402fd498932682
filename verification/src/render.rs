//! What the renderer prints while it works, and how it ends.
use crate::error;
use crate::error::{AppError, AppResult, ErrorView};
use crate::scan;
use crate::scan::{show, split_on, strip_prefix};
use crate::text;
use crate::text::{
    bytes_in, cat, cat3, char_width, chars_of, eq_ignore_case, lowercase, text_of, trim,
};
use vstd::prelude::*;
use vstd::slice::slice_subrange;

verus! {

pub const RENDERER_OUTPUT_TAIL_BYTES: u64 = 12_288;

pub const RENDERER_OUTPUT_LINE_BYTES: u64 = 2_048;

// ---------------------------------------------------------------------------------------------
// The end of the output
// ---------------------------------------------------------------------------------------------

/// The longest end of a text that takes at most so many bytes.
pub open spec fn tail_bytes(s: Seq<char>, most: nat) -> Seq<char>
    decreases s.len(),
{
    if text::byte_len(s) <= most || s.len() == 0 {
        s
    } else {
        tail_bytes(s.drop_first(), most)
    }
}

/// The longest beginning of a text that takes at most so many bytes.
pub open spec fn head_bytes(s: Seq<char>, most: nat) -> Seq<char>
    decreases s.len(),
{
    if text::byte_len(s) <= most || s.len() == 0 {
        s
    } else {
        head_bytes(s.drop_last(), most)
    }
}

/// A text and one more line.
pub open spec fn with_line(s: Seq<char>, line: Seq<char>) -> Seq<char> {
    if s.len() == 0 {
        line
    } else {
        s.push('\n') + line
    }
}

proof fn byte_len_front(s: Seq<char>)
    requires
        s.len() > 0,
    ensures
        text::byte_len(s) == text::width(s[0]) + text::byte_len(s.drop_first()),
    decreases s.len(),
{
    if s.len() > 1 {
        byte_len_front(s.drop_last());
        assert(s.drop_last().drop_first() =~= s.drop_first().drop_last());
    } else {
        assert(s.drop_last() =~= s.drop_first());
    }
}

/// Appends a line to the end of an output and keeps at most so many bytes of it.
pub fn append_text_tail(buffer: &mut String, line: &str, max_bytes: u64)
    ensures
        final(buffer)@ == tail_bytes(with_line(old(buffer)@, line@), max_bytes as nat),
{
    let mut all = buffer.clone();
    if !all.as_str().is_empty() {
        all.push('\n');
    }
    all.append(line);
    let ghost whole = with_line(buffer@, line@);
    assert(all@ =~= whole);
    let v = chars_of(all.as_str());
    let mut left: u128 = bytes_in(all.as_str());
    let mut i: usize = 0;
    assert(v@.skip(0) =~= v@);
    while i < v.len() && left > max_bytes as u128
        invariant
            i <= v@.len(),
            v@ == whole,
            left == text::byte_len(v@.skip(i as int)),
            tail_bytes(whole, max_bytes as nat) == tail_bytes(v@.skip(i as int), max_bytes as nat),
        decreases v@.len() - i,
    {
        proof {
            byte_len_front(v@.skip(i as int));
            assert(v@.skip(i as int).drop_first() =~= v@.skip(i + 1));
        }
        left = left - char_width(v[i]) as u128;
        i = i + 1;
    }
    let rest = text_of(slice_subrange(v.as_slice(), i, v.len()));
    assert(rest@ =~= v@.skip(i as int));
    *buffer = rest;
}

/// The longest beginning of a text that takes at most so many bytes.
pub fn truncate_utf8(value: &str, max_bytes: u64) -> (r: String)
    ensures
        r@ == head_bytes(value@, max_bytes as nat),
{
    let v = chars_of(value);
    let mut left: u128 = bytes_in(value);
    let mut n: usize = v.len();
    assert(v@.take(n as int) =~= v@);
    while n > 0 && left > max_bytes as u128
        invariant
            n <= v@.len(),
            v@ == value@,
            left == text::byte_len(v@.take(n as int)),
            head_bytes(value@, max_bytes as nat) == head_bytes(v@.take(n as int), max_bytes as nat),
        decreases n,
    {
        assert(v@.take(n as int).drop_last() =~= v@.take(n - 1));
        left = left - char_width(v[n - 1]) as u128;
        n = n - 1;
    }
    let head = text_of(slice_subrange(v.as_slice(), 0, n));
    assert(head@ =~= v@.take(n as int));
    head
}

/// What is kept of an output never takes more than it may, and is the end of what was printed.
pub proof fn tail_fits(s: Seq<char>, most: nat)
    ensures
        text::byte_len(tail_bytes(s, most)) <= most,
        scan::finishes(s, tail_bytes(s, most)),
    decreases s.len(),
{
    if text::byte_len(s) <= most || s.len() == 0 {
        assert(s.subrange(0, s.len() as int) =~= s);
    } else {
        tail_fits(s.drop_first(), most);
        let t = tail_bytes(s, most);
        let k = s.len() - t.len();
        assert(s.drop_first().subrange(k - 1, k - 1 + t.len()) =~= s.subrange(k, k + t.len()));
    }
}

/// What is kept of a line never takes more than it may, and is the beginning of the line.
pub proof fn head_fits(s: Seq<char>, most: nat)
    ensures
        text::byte_len(head_bytes(s, most)) <= most,
        scan::begins(s, head_bytes(s, most)),
    decreases s.len(),
{
    if text::byte_len(s) <= most || s.len() == 0 {
        assert(s.subrange(0, s.len() as int) =~= s);
    } else {
        head_fits(s.drop_last(), most);
        let t = head_bytes(s, most);
        assert(s.drop_last().subrange(0, t.len() as int) =~= s.subrange(0, t.len() as int));
    }
}

/// The line of the output that is kept: the stream that it came from and the beginning of it.
pub fn output_line(stream: &str, line: &str) -> (r: String)
    ensures
        r@ == stream@ + ": "@ + head_bytes(line@, RENDERER_OUTPUT_LINE_BYTES as nat),
{
    cat3(stream, ": ", truncate_utf8(line, RENDERER_OUTPUT_LINE_BYTES).as_str())
}

// ---------------------------------------------------------------------------------------------
// Progress
// ---------------------------------------------------------------------------------------------

/// Neither a digit nor a dot.
pub open spec fn not_numeric() -> spec_fn(char) -> bool {
    |c: char| !text::is_digit(c) && c != '.'
}

/// The last piece that is not empty.
pub open spec fn last_filled(pieces: Seq<Seq<char>>) -> Option<Seq<char>>
    decreases pieces.len(),
{
    if pieces.len() == 0 {
        None
    } else if pieces.last().len() > 0 {
        Some(pieces.last())
    } else {
        last_filled(pieces.drop_last())
    }
}

/// The number before the first percent sign of a line, as it is written.
pub open spec fn percent_text(line: Seq<char>) -> Option<Seq<char>> {
    match scan::cut_once(line, '%') {
        None => None,
        Some((before, _)) => last_filled(scan::split(before, not_numeric())),
    }
}

/// The number before the first percent sign of a line, as it is written.
pub fn parse_percent(line: &str) -> (r: Option<String>)
    ensures
        text::opt_text(r) == percent_text(line@),
{
    match scan::split_once(line, '%') {
        None => None,
        Some((before, _)) => {
            let v = chars_of(before.as_str());
            let pieces = split_on(
                v.as_slice(),
                |c: char| -> (b: bool)
                    ensures b == (!text::is_digit(c) && c != '.')
                    { !text::digit(c) && c != '.' },
                Ghost(not_numeric()),
            );
            let ghost all = text::texts(pieces@);
            let mut n: usize = pieces.len();
            assert(all.take(n as int) =~= all);
            while n > 0
                invariant
                    n <= pieces@.len(),
                    all == text::texts(pieces@),
                    percent_text(line@) == last_filled(all),
                    last_filled(all) == last_filled(all.take(n as int)),
                decreases n,
            {
                proof {
                    assert(all.take(n as int).last() == pieces@[n - 1]@);
                    assert(all.take(n as int).drop_last() =~= all.take(n - 1));
                }
                if !pieces[n - 1].as_str().is_empty() {
                    return Some(pieces[n - 1].clone());
                }
                n = n - 1;
            }
            None
        },
    }
}

/// The progress that is told next, from a rounded percentage: it stays between five and ninety-four,
/// and is told only where it has grown.
pub open spec fn progress_after(last: u32, percent: i64) -> Option<u32> {
    let p = if percent < 5 {
        5
    } else if percent > 94 {
        94
    } else {
        percent as int
    };
    if p <= last {
        None
    } else {
        Some(p as u32)
    }
}

/// The progress that is told next.
pub fn render_progress(last: u32, percent: i64) -> (r: Option<u32>)
    ensures
        r == progress_after(last, percent),
{
    let p: u32 = if percent < 5 {
        5
    } else if percent > 94 {
        94
    } else {
        percent as u32
    };
    if p <= last {
        None
    } else {
        Some(p)
    }
}

/// The progress that is told only grows, and stays below that of the upload.
pub proof fn progress_grows(last: u32, percent: i64)
    ensures
        progress_after(last, percent) matches Some(p) ==> last < p && 5 <= p <= 94,
{
}

/// The step that is told with a progress.
pub fn render_step(progress: u32) -> (r: String)
    ensures
        r@ == "Renderizando: "@ + scan::decimal(progress as nat) + "%"@,
{
    cat3("Renderizando: ", show(progress as u64).as_str(), "%")
}

// ---------------------------------------------------------------------------------------------
// The graphics card
// ---------------------------------------------------------------------------------------------

/// The name of the graphics card that a line tells.
pub open spec fn gpu_in(line: Seq<char>) -> Option<Seq<char>> {
    let s = text::trimmed(line);
    let rest = if scan::begins(s, "GPU:"@) {
        Some(s.skip("GPU:"@.len() as int))
    } else if scan::begins(s, "gpu:"@) {
        Some(s.skip("gpu:"@.len() as int))
    } else {
        None
    };
    match rest {
        None => None,
        Some(t) => {
            let name = text::trimmed(t);
            if name.len() == 0 || scan::has(text::lower_text(name), "fps"@) {
                None
            } else {
                Some(name)
            }
        },
    }
}

/// The name of the graphics card that a line tells.
pub fn parse_gpu_name(line: &str) -> (r: Option<String>)
    ensures
        text::opt_text(r) == gpu_in(line@),
{
    let s = trim(line);
    let rest = match strip_prefix(s.as_str(), "GPU:") {
        Some(t) => t,
        None => match strip_prefix(s.as_str(), "gpu:") {
            Some(t) => t,
            None => {
                return None;
            },
        },
    };
    let name = trim(rest.as_str());
    if name.as_str().is_empty() || scan::contains(lowercase(name.as_str()).as_str(), "fps") {
        None
    } else {
        Some(name)
    }
}

/// The name of a graphics card, unless it is not known.
pub fn normalize_gpu_name(value: &str) -> (r: Option<String>)
    ensures
        text::opt_text(r) == {
            let s = text::trimmed(value@);
            if s.len() == 0 || text::same_ignoring_case(s, "unknown"@) {
                None
            } else {
                Some(s)
            }
        },
{
    let s = trim(value);
    if s.as_str().is_empty() || eq_ignore_case(s.as_str(), "unknown") {
        None
    } else {
        Some(s)
    }
}

// ---------------------------------------------------------------------------------------------
// The end of a render
// ---------------------------------------------------------------------------------------------

/// How a render ended.
pub enum RenderEnd {
    /// The renderer has exited, with or without success; its status and the end of its output.
    Exited { success: bool, status: String, output: String },
    /// It took longer than so many milliseconds.
    TimedOut(u64),
    Cancelled,
}

/// What the end of a render comes to.
pub open spec fn render_outcome(end: RenderEnd) -> Result<(), ErrorView> {
    match end {
        RenderEnd::Exited { success, status, output } => if success {
            Ok(())
        } else if text::is_blank(output@) {
            Err(ErrorView::Process("renderer exited with "@ + status@))
        } else {
            Err(
                ErrorView::Process(
                    "renderer exited with "@ + status@ + ": "@ + text::trimmed(output@),
                ),
            )
        },
        RenderEnd::TimedOut(ms) => Err(
            ErrorView::Process(
                "Render timed out after "@ + scan::decimal((ms / 1000) as nat) + " seconds"@,
            ),
        ),
        RenderEnd::Cancelled => Err(ErrorView::Process("Render cancelled"@)),
    }
}

/// What the end of a render comes to.
pub fn render_with_cli(end: RenderEnd) -> (r: AppResult<()>)
    ensures
        error::plain(r) == render_outcome(end),
{
    match end {
        RenderEnd::Exited { success, status, output } => {
            if success {
                return Ok(());
            }
            let details = trim(output.as_str());
            if details.as_str().is_empty() {
                Err(AppError::Process(cat("renderer exited with ", status.as_str())))
            } else {
                let mut m = cat3("renderer exited with ", status.as_str(), ": ");
                m.append(details.as_str());
                Err(AppError::Process(m))
            }
        },
        RenderEnd::TimedOut(ms) => Err(
            AppError::Process(
                cat3("Render timed out after ", show(ms / 1000).as_str(), " seconds"),
            ),
        ),
        RenderEnd::Cancelled => Err(AppError::Process("Render cancelled".to_owned())),
    }
}

/// The progress of a render lies between five and ninety-four, is the number that the renderer tells where that
/// lies there, and is told only where it is more than before.
pub proof fn progress_is_what_the_renderer_tells(last: u32, percent: i64)
    ensures
        5 <= percent <= 94 && percent > last ==> progress_after(last, percent) == Some(percent as u32),
        5 <= percent <= 94 && percent <= last ==> progress_after(last, percent) is None,
        percent > 94 && last < 94 ==> progress_after(last, percent) == Some(94u32),
        percent < 5 && last < 5 ==> progress_after(last, percent) == Some(5u32),
        last >= 94 ==> progress_after(last, percent) is None,
{
}

/// A render went well only where the renderer came to an end and said so.
pub proof fn only_good_ends_are_good(success: bool, status: String, output: String, ms: u64)
    ensures
        render_outcome(RenderEnd::Exited { success: true, status, output }) is Ok,
        render_outcome(RenderEnd::Exited { success: false, status, output }) is Err,
        render_outcome(RenderEnd::TimedOut(ms)) is Err,
        render_outcome(RenderEnd::Cancelled) is Err,
{
}

/// A line is appended behind a line feed, and the first one without it.
pub proof fn lines_are_appended(s: Seq<char>, line: Seq<char>)
    ensures
        with_line(Seq::empty(), line) == line,
        s.len() > 0 ==> with_line(s, line) == s + seq!['\n'] + line,
{
    assert(s.push('\n') =~= s + seq!['\n']);
}

/// The end of a text is an end of it, and is all of it where that fits.
pub proof fn tails_are_ends(s: Seq<char>, most: nat)
    ensures
        text::byte_len(s) <= most ==> tail_bytes(s, most) == s,
        text::byte_len(s) <= most ==> head_bytes(s, most) == s,
        tail_bytes(s, most).len() <= s.len() && tail_bytes(s, most) == s.skip(
            s.len() - tail_bytes(s, most).len(),
        ),
        head_bytes(s, most).len() <= s.len() && head_bytes(s, most) == s.take(
            head_bytes(s, most).len() as int,
        ),
    decreases s.len(),
{
    if text::byte_len(s) <= most || s.len() == 0 {
        assert(s.skip(0) =~= s);
        assert(s.take(s.len() as int) =~= s);
    } else {
        let k = tail_bytes(s.drop_first(), most).len();
        let h = head_bytes(s.drop_last(), most).len();
        tails_are_ends(s.drop_first(), most);
        tails_are_ends(s.drop_last(), most);
        assert(s.drop_first().skip(s.len() - 1 - k) =~= s.skip(s.len() - k));
        assert(s.drop_last().take(h as int) =~= s.take(h as int));
    }
}

/// A card that the renderer names is told without the space around it, unless the line counts frames.
pub proof fn named_cards_are_told(name: Seq<char>)
    requires
        text::trimmed("GPU:"@ + name) == "GPU:"@ + name,
    ensures
        !text::is_blank(name) && !scan::has(text::lower_text(text::trimmed(name)), "fps"@) ==> gpu_in(
            "GPU:"@ + name,
        ) == Some(text::trimmed(name)),
        text::is_blank(name) ==> gpu_in("GPU:"@ + name) is None,
        scan::has(text::lower_text(text::trimmed(name)), "fps"@) ==> gpu_in("GPU:"@ + name) is None,
{
    let s = "GPU:"@ + name;
    let n = "GPU:"@.len() as int;
    assert(s.subrange(0, n) =~= "GPU:"@);
    assert(s.skip(n) =~= name);
}

proof fn last_piece_follows(cur: Seq<char>, s: Seq<char>, run: Seq<char>)
    requires
        forall|i: int| 0 <= i < run.len() ==> !not_numeric()(#[trigger] run[i]),
        s.len() > 0 ==> not_numeric()(s.last()),
    ensures
        scan::pieces(cur, s + run, not_numeric()).len() > 0,
        s.len() > 0 ==> scan::pieces(cur, s + run, not_numeric()).last() == run,
        s.len() == 0 ==> scan::pieces(cur, s + run, not_numeric()) == seq![cur + run],
    decreases s.len() + run.len(),
{
    let p = not_numeric();
    let all = s + run;
    if s.len() == 0 {
        assert(all =~= run);
        if run.len() == 0 {
            assert(cur + run =~= cur);
        } else {
            let rest = run.drop_first();
            assert(!p(run[0]));
            assert forall|i: int| 0 <= i < rest.len() implies !not_numeric()(#[trigger] rest[i]) by {
                assert(rest[i] == run[i + 1]);
            }
            last_piece_follows(cur.push(run[0]), s, rest);
            assert(s + rest =~= rest);
            assert(cur.push(run[0]) + rest =~= cur + run);
        }
    } else {
        let rest = s.drop_first();
        assert(all[0] == s[0]);
        assert(all.drop_first() =~= rest + run);
        if rest.len() > 0 {
            assert(rest.last() == s.last());
        }
        if p(s[0]) {
            last_piece_follows(Seq::empty(), rest, run);
            let more = scan::pieces(Seq::empty(), rest + run, p);
            assert((seq![cur] + more).last() == more.last());
            assert(Seq::<char>::empty() + run =~= run);
        } else {
            assert(rest.len() > 0);
            last_piece_follows(cur.push(s[0]), rest, run);
        }
    }
}

/// The number right before the first sign for per cent is the one that is read, whatever stands before it.
pub proof fn numbers_before_the_sign_are_read(before: Seq<char>, number: Seq<char>, rest: Seq<char>)
    requires
        number.len() > 0,
        forall|i: int| 0 <= i < number.len() ==> '0' <= #[trigger] number[i] <= '9' || number[i] == '.',
        !scan::has_char(before, '%'),
        before.len() > 0 ==> !('0' <= before.last() <= '9') && before.last() != '.',
    ensures
        percent_text(before + number + seq!['%'] + rest) == Some(number),
        percent_text(before) is None,
{
    let name = before + number;
    assert forall|i: int| 0 <= i < name.len() implies #[trigger] name[i] != '%' by {
        if i < before.len() {
            assert(name[i] == before[i]);
        } else {
            assert(name[i] == number[i - before.len()]);
        }
    }
    scan::names_and_values_are_told_apart(name, '%', rest);
    scan::names_and_values_are_told_apart(before, '%', rest);
    assert forall|i: int| 0 <= i < number.len() implies !not_numeric()(#[trigger] number[i]) by {}
    last_piece_follows(Seq::empty(), before, number);
    assert(Seq::<char>::empty() + number =~= number);
}

/// A render that failed tells how the renderer ended and what it said, and one that took too long tells that.
pub proof fn failed_renders_tell_why(status: String, output: String, ms: u64)
    ensures
        text::is_blank(output@) ==> render_outcome(RenderEnd::Exited { success: false, status, output })
            == Err::<(), ErrorView>(ErrorView::Process("renderer exited with "@ + status@)),
        !text::is_blank(output@) ==> render_outcome(RenderEnd::Exited { success: false, status, output })
            == Err::<(), ErrorView>(
            ErrorView::Process("renderer exited with "@ + status@ + ": "@ + text::trimmed(output@)),
        ),
        render_outcome(RenderEnd::Cancelled) == Err::<(), ErrorView>(
            ErrorView::Process("Render cancelled"@),
        ),
        render_outcome(RenderEnd::TimedOut(ms)) == Err::<(), ErrorView>(
            ErrorView::Process(
                "Render timed out after "@ + scan::decimal((ms / 1000) as nat) + " seconds"@,
            ),
        ),
{
}

} // verus!
