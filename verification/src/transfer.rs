//! Transfers of files: how much a worker fetches and sends.
use crate::codec;
use crate::codec::decode_standard;
use crate::error;
use crate::error::{invalid, AppError, AppResult, ErrorView};
use crate::jobs::JSON_LIMIT_BYTES;
use crate::scan;
use crate::scan::{parse_u64, show, split_at_char, split_once, starts_with, tail_after};
use crate::text;
use crate::text::{cat3, eq_ignore_case, trim};
use vstd::prelude::*;

verus! {

// ---------------------------------------------------------------------------------------------
// The budget of a job
// ---------------------------------------------------------------------------------------------

/// The bytes that a job has fetched, and the bytes that it may fetch.
#[derive(Clone, Copy, PartialEq, Eq, Structural)]
pub struct ByteBudget {
    pub used_bytes: u64,
    pub max_bytes: u64,
}

/// "(a > b bytes)".
pub open spec fn excess(a: nat, b: nat) -> Seq<char> {
    " ("@ + scan::decimal(a) + " > "@ + scan::decimal(b) + " bytes)"@
}

fn show_excess(head: &str, a: u64, b: u64) -> (r: String)
    ensures
        r@ == head@ + excess(a as nat, b as nat),
{
    let mut s = cat3(head, " (", show(a).as_str());
    s.append(" > ");
    s.append(show(b).as_str());
    s.append(" bytes)");
    assert(s@ =~= head@ + excess(a as nat, b as nat));
    s
}

/// A file of that size may be fetched within its own limit and within the budget of the job.
pub open spec fn transfer_outcome(size: u64, most: u64, budget: ByteBudget) -> Result<(), ErrorView> {
    let next = budget.used_bytes + size;
    if size > most {
        Err(
            ErrorView::InvalidInput(
                "transfer exceeds file size limit"@ + excess(size as nat, most as nat),
            ),
        )
    } else if next > u64::MAX {
        Err(ErrorView::InvalidInput("transfer budget overflow"@))
    } else if next > budget.max_bytes {
        Err(
            ErrorView::InvalidInput(
                "transfer exceeds total job size limit"@ + excess(
                    next as nat,
                    budget.max_bytes as nat,
                ),
            ),
        )
    } else {
        Ok(())
    }
}

/// Checks a file of that size against its own limit and the budget of the job.
pub fn validate_transfer_size(size: u64, max_file_bytes: u64, budget: &ByteBudget) -> (r: AppResult<
    (),
>)
    ensures
        error::plain(r) == transfer_outcome(size, max_file_bytes, *budget),
{
    if size > max_file_bytes {
        return Err(
            AppError::InvalidInput(
                show_excess("transfer exceeds file size limit", size, max_file_bytes),
            ),
        );
    }
    match budget.used_bytes.checked_add(size) {
        None => Err(invalid("transfer budget overflow")),
        Some(next) => {
            if next > budget.max_bytes {
                return Err(
                    AppError::InvalidInput(
                        show_excess(
                            "transfer exceeds total job size limit",
                            next,
                            budget.max_bytes,
                        ),
                    ),
                );
            }
            Ok(())
        },
    }
}

// ---------------------------------------------------------------------------------------------
// Fetching a file
// ---------------------------------------------------------------------------------------------

/// A file that is being fetched: the bytes that have come, the limit of the file, and the budget of
/// the job without it.
#[derive(Clone, Copy, PartialEq, Eq, Structural)]
pub struct Download {
    pub written: u64,
    pub most: u64,
    pub budget: ByteBudget,
}

impl Download {
    /// What has come lies within both limits.
    pub open spec fn wf(self) -> bool {
        transfer_outcome(self.written, self.most, self.budget) is Ok
    }

    /// The error, if any, once so many more bytes come.
    pub open spec fn chunk_outcome(self, len: u64) -> Result<(), ErrorView> {
        if self.written + len > u64::MAX {
            Err(ErrorView::InvalidInput("download size overflow"@))
        } else {
            transfer_outcome((self.written + len) as u64, self.most, self.budget)
        }
    }

    /// Begins to fetch a file, whose size may have been told beforehand. Nothing more than a budget
    /// that is already spent, or a size that is too large, stops it.
    pub fn begin(budget: ByteBudget, most: u64, declared: Option<u64>) -> (r: AppResult<Download>)
        ensures
            match r {
                Ok(d) => {
                    &&& d.written == 0 && d.most == most && d.budget == budget
                    &&& declared matches Some(n) ==> transfer_outcome(n, most, budget) is Ok
                },
                Err(e) => declared matches Some(n) && transfer_outcome(n, most, budget) == Err::<
                    (),
                    ErrorView,
                >(e@),
            },
    {
        if let Some(n) = declared {
            match validate_transfer_size(n, most, &budget) {
                Ok(()) => {},
                Err(e) => {
                    return Err(e);
                },
            }
        }
        Ok(Download { written: 0, most, budget })
    }

    /// Counts a chunk that has come. It is written only where it is within the limits.
    pub fn chunk(&mut self, len: u64) -> (r: AppResult<()>)
        ensures
            error::plain(r) == old(self).chunk_outcome(len),
            final(self).most == old(self).most,
            final(self).budget == old(self).budget,
            r is Ok ==> final(self).written == old(self).written + len && final(self).wf(),
            r is Err ==> *final(self) == *old(self),
    {
        match self.written.checked_add(len) {
            None => Err(invalid("download size overflow")),
            Some(next) => {
                match validate_transfer_size(next, self.most, &self.budget) {
                    Ok(()) => {
                        self.written = next;
                        Ok(())
                    },
                    Err(e) => Err(e),
                }
            },
        }
    }

    /// Ends with a file that has come whole: an empty one is refused, any other one is taken out of
    /// the budget.
    pub fn finish(self) -> (r: AppResult<(u64, ByteBudget)>)
        requires
            self.wf() || self.written == 0,
        ensures
            error::plain(r) == if self.written == 0 {
                Err(ErrorView::InvalidInput("downloaded file is empty"@))
            } else {
                Ok(
                    (
                        self.written,
                        ByteBudget {
                            used_bytes: (self.budget.used_bytes + self.written) as u64,
                            max_bytes: self.budget.max_bytes,
                        },
                    ),
                )
            },
            r matches Ok(v) ==> v.1.used_bytes <= v.1.max_bytes && v.1.used_bytes
                == self.budget.used_bytes + self.written,
    {
        if self.written == 0 {
            return Err(invalid("downloaded file is empty"));
        }
        let used: u64 = self.budget.used_bytes + self.written;
        Ok((self.written, ByteBudget { used_bytes: used, max_bytes: self.budget.max_bytes }))
    }
}

/// The budget after a file has come whole.
pub open spec fn taken_whole(size: u64, most: u64, budget: ByteBudget) -> Result<ByteBudget, ErrorView> {
    if transfer_outcome(size, most, budget) is Err {
        Err(transfer_outcome(size, most, budget)->Err_0)
    } else if size == 0 {
        Err(ErrorView::InvalidInput("downloaded file is empty"@))
    } else {
        Ok(
            ByteBudget {
                used_bytes: (budget.used_bytes + size) as u64,
                max_bytes: budget.max_bytes,
            },
        )
    }
}

/// Takes a file whose bytes are already there.
pub fn take_whole(size: u64, most: u64, budget: ByteBudget) -> (r: AppResult<ByteBudget>)
    ensures
        error::plain(r) == taken_whole(size, most, budget),
        error::plain(r) == if transfer_outcome(size, most, budget) is Err {
            Err(transfer_outcome(size, most, budget)->Err_0)
        } else if size == 0 {
            Err(ErrorView::InvalidInput("downloaded file is empty"@))
        } else {
            Ok(
                ByteBudget {
                    used_bytes: (budget.used_bytes + size) as u64,
                    max_bytes: budget.max_bytes,
                },
            )
        },
        r matches Ok(b) ==> b.used_bytes <= b.max_bytes,
{
    match validate_transfer_size(size, most, &budget) {
        Ok(()) => {},
        Err(e) => {
            return Err(e);
        },
    }
    if size == 0 {
        return Err(invalid("downloaded file is empty"));
    }
    Ok(ByteBudget { used_bytes: budget.used_bytes + size, max_bytes: budget.max_bytes })
}

/// However many chunks come, a download takes no more than the limit of its file, and no more than
/// its job may fetch.
pub proof fn download_stays_within_limits(d: Download, len: u64)
    requires
        d.wf() || d.written == 0,
        d.chunk_outcome(len) is Ok,
    ensures
        d.written + len <= d.most,
        d.budget.used_bytes + d.written + len <= d.budget.max_bytes,
{
}

/// The order of two files does not matter to the budget: what is left over for later files is the
/// same.
pub proof fn budget_adds_up(a: u64, b: u64, most: u64, budget: ByteBudget)
    requires
        transfer_outcome(a, most, budget) is Ok,
        transfer_outcome(
            b,
            most,
            ByteBudget { used_bytes: (budget.used_bytes + a) as u64, ..budget },
        ) is Ok,
    ensures
        transfer_outcome(b, most, budget) is Ok,
        transfer_outcome(
            a,
            most,
            ByteBudget { used_bytes: (budget.used_bytes + b) as u64, ..budget },
        ) is Ok,
{
}

// ---------------------------------------------------------------------------------------------
// Files inside of addresses
// ---------------------------------------------------------------------------------------------

/// One of the parts says that the payload is base64.
pub open spec fn says_base64(parts: Seq<Seq<char>>) -> bool {
    exists|i: int| 0 <= i < parts.len() && text::same_ignoring_case(#[trigger] parts[i], "base64"@)
}

/// The base64 text of an address that holds a file; nothing of any other address.
pub open spec fn data_payload(source: Seq<char>) -> Result<Option<Seq<char>>, ErrorView> {
    let s = text::trimmed(source);
    if !scan::begins(s, "data:"@) {
        Ok(None)
    } else {
        match scan::cut_once(s, ',') {
            None => Err(ErrorView::InvalidInput("invalid data URL asset payload"@)),
            Some((metadata, payload)) => if says_base64(scan::split(metadata, text::only(';'))) {
                Ok(Some(text::trimmed(payload)))
            } else {
                Err(ErrorView::InvalidInput("data URL assets must be base64 encoded"@))
            },
        }
    }
}

/// What an optional text in a result holds.
pub open spec fn opt_outcome(r: AppResult<Option<String>>) -> Result<Option<Seq<char>>, ErrorView> {
    match r {
        Ok(o) => Ok(text::opt_text(o)),
        Err(e) => Err(e@),
    }
}

fn is_base64_marked(parts: &Vec<String>) -> (r: bool)
    ensures
        r == says_base64(text::texts(parts@)),
{
    let mut i: usize = 0;
    let ghost all = text::texts(parts@);
    while i < parts.len()
        invariant
            i <= parts@.len(),
            all == text::texts(parts@),
            forall|j: int|
                0 <= j < i ==> !text::same_ignoring_case(#[trigger] all[j], "base64"@),
        decreases parts@.len() - i,
    {
        assert(all[i as int] == parts@[i as int]@);
        if eq_ignore_case(parts[i].as_str(), "base64") {
            return true;
        }
        i = i + 1;
    }
    false
}

/// The base64 text of an address that holds a file.
pub fn data_url_payload(source_url: &str) -> (r: AppResult<Option<String>>)
    ensures
        opt_outcome(r) == data_payload(source_url@),
{
    let s = trim(source_url);
    if !starts_with(s.as_str(), "data:") {
        return Ok(None);
    }
    match split_once(s.as_str(), ',') {
        None => Err(invalid("invalid data URL asset payload")),
        Some((metadata, payload)) => {
            let parts = split_at_char(metadata.as_str(), ';');
            if !is_base64_marked(&parts) {
                return Err(invalid("data URL assets must be base64 encoded"));
            }
            Ok(Some(trim(payload.as_str())))
        },
    }
}

/// The file that an address holds; nothing of any other address.
pub fn decode_data_url_bytes(source_url: &str) -> (r: AppResult<Option<Vec<u8>>>)
    ensures
        match data_payload(source_url@) {
            Err(e) => r matches Err(err) && err@ == e,
            Ok(None) => r == Ok::<Option<Vec<u8>>, AppError>(None),
            Ok(Some(payload)) => match codec::base64_standard(payload) {
                Some(b) => r matches Ok(Some(v)) && v@ == b,
                None => r matches Err(err) && err@ == ErrorView::InvalidInput(
                    "invalid base64 data URL asset"@,
                ),
            },
        },
{
    match data_url_payload(source_url) {
        Err(e) => Err(e),
        Ok(None) => Ok(None),
        Ok(Some(payload)) => match decode_standard(payload.as_str()) {
            Some(v) => Ok(Some(v)),
            None => Err(invalid("invalid base64 data URL asset")),
        },
    }
}

// ---------------------------------------------------------------------------------------------
// Files of benchmarks, reports and results
// ---------------------------------------------------------------------------------------------

/// Refuses a file for a benchmark that is told to be too large.
pub fn check_benchmark_length(declared: Option<u64>, max_bytes: u64) -> (r: AppResult<()>)
    ensures
        error::plain(r) == match declared {
            Some(n) => if n > max_bytes {
                Err(
                    ErrorView::Process(
                        "benchmark asset is too large: "@ + scan::decimal(n as nat) + " bytes"@,
                    ),
                )
            } else {
                Ok(())
            },
            None => Ok(()),
        },
{
    if let Some(n) = declared {
        if n > max_bytes {
            return Err(
                AppError::Process(
                    cat3("benchmark asset is too large: ", show(n).as_str(), " bytes"),
                ),
            );
        }
    }
    Ok(())
}

/// How much of a file for the benchmark has come after one more chunk, unless it is too much.
pub open spec fn after_chunk(downloaded: u64, len: u64, most: u64) -> Option<u64> {
    if downloaded + len > most {
        None
    } else {
        Some((downloaded + len) as u64)
    }
}

/// Counts a chunk of a file for a benchmark.
pub fn benchmark_chunk(downloaded: u64, len: u64, max_bytes: u64) -> (r: AppResult<u64>)
    ensures
        match after_chunk(downloaded, len, max_bytes) {
            Some(n) => error::plain(r) == Ok::<u64, ErrorView>(n),
            None => r is Err,
        },
        error::plain(r) == if downloaded + len > max_bytes {
            Err(
                ErrorView::Process(
                    "benchmark asset exceeded "@ + scan::decimal(max_bytes as nat) + " bytes"@,
                ),
            )
        } else {
            Ok((downloaded + len) as u64)
        },
{
    match downloaded.checked_add(len) {
        Some(next) => if next <= max_bytes {
            return Ok(next);
        },
        None => {},
    }
    Err(
        AppError::Process(
            cat3("benchmark asset exceeded ", show(max_bytes).as_str(), " bytes"),
        ),
    )
}

/// Refuses an empty file for a benchmark.
pub fn finish_benchmark_file(downloaded: u64) -> (r: AppResult<()>)
    ensures
        error::plain(r) == if downloaded == 0 {
            Err(ErrorView::Process("benchmark asset download was empty"@))
        } else {
            Ok(())
        },
{
    if downloaded == 0 {
        return Err(AppError::Process("benchmark asset download was empty".to_owned()));
    }
    Ok(())
}

/// Whether a video may be uploaded.
pub open spec fn output_outcome(size: u64, most: u64) -> Result<(), ErrorView> {
    if size == 0 {
        Err(ErrorView::InvalidInput("rendered output is empty"@))
    } else if size > most {
        Err(
            ErrorView::InvalidInput(
                "rendered output exceeds allowed size"@ + excess(size as nat, most as nat),
            ),
        )
    } else {
        Ok(())
    }
}

/// Refuses a video that is empty or too large.
pub fn check_output_size(size: u64, max_output_size_bytes: u64) -> (r: AppResult<()>)
    ensures
        error::plain(r) == output_outcome(size, max_output_size_bytes),
        error::plain(r) == if size == 0 {
            Err(ErrorView::InvalidInput("rendered output is empty"@))
        } else if size > max_output_size_bytes {
            Err(
                ErrorView::InvalidInput(
                    "rendered output exceeds allowed size"@ + excess(
                        size as nat,
                        max_output_size_bytes as nat,
                    ),
                ),
            )
        } else {
            Ok(())
        },
{
    if size == 0 {
        return Err(invalid("rendered output is empty"));
    }
    if size > max_output_size_bytes {
        return Err(
            AppError::InvalidInput(
                show_excess("rendered output exceeds allowed size", size, max_output_size_bytes),
            ),
        );
    }
    Ok(())
}

/// A text of that size may be sent.
pub open spec fn json_outcome(label: Seq<char>, size: u64, most: u64) -> Result<(), ErrorView> {
    if size > most {
        Err(
            ErrorView::InvalidInput(
                label + " exceeds allowed size"@ + excess(size as nat, most as nat),
            ),
        )
    } else {
        Ok(())
    }
}

/// Refuses a JSON file that is too large, by what it is called.
pub fn check_json_size(label: &str, size: u64, max_bytes: u64) -> (r: AppResult<()>)
    ensures
        error::plain(r) == json_outcome(label@, size, max_bytes),
        error::plain(r) == if size > max_bytes {
            Err(
                ErrorView::InvalidInput(
                    label@ + " exceeds allowed size"@ + excess(size as nat, max_bytes as nat),
                ),
            )
        } else {
            Ok(())
        },
{
    if size > max_bytes {
        let head = text::cat(label, " exceeds allowed size");
        return Err(AppError::InvalidInput(show_excess(head.as_str(), size, max_bytes)));
    }
    Ok(())
}

/// What a report of a render leads to, by its size: an empty one is none, and one that is too large is
/// refused.
pub fn replay_report_wanted(size: u64) -> (r: AppResult<bool>)
    ensures
        error::plain(r) == if size == 0 {
            Ok(false)
        } else if size > JSON_LIMIT_BYTES {
            Err(
                ErrorView::Process(
                    "replay integrity report exceeded "@ + scan::decimal(JSON_LIMIT_BYTES as nat)
                        + " bytes"@,
                ),
            )
        } else {
            Ok(true)
        },
{
    if size == 0 {
        return Ok(false);
    }
    if size > JSON_LIMIT_BYTES {
        return Err(
            AppError::Process(
                cat3("replay integrity report exceeded ", show(JSON_LIMIT_BYTES).as_str(), " bytes"),
            ),
        );
    }
    Ok(true)
}

/// The size of a whole file that the header of a part of it tells: a number above zero after the last
/// slash.
pub open spec fn range_total(header: Seq<char>) -> Option<u64> {
    match scan::after_last(text::trimmed(header), '/') {
        None => None,
        Some(t) => match scan::unsigned_value(text::trimmed(t), u64::MAX as nat) {
            Some(n) => if n > 0 {
                Some(n as u64)
            } else {
                None
            },
            None => None,
        },
    }
}

/// The size of a whole file that the header of a part of it tells.
pub fn content_range_total(header: Option<&str>) -> (r: Option<u64>)
    ensures
        r == match header {
            Some(h) => range_total(h@),
            None => None,
        },
{
    match header {
        None => None,
        Some(h) => match tail_after(trim(h).as_str(), '/') {
            None => None,
            Some(t) => match parse_u64(trim(t.as_str()).as_str()) {
                Some(n) => if n > 0 {
                    Some(n)
                } else {
                    None
                },
                None => None,
            },
        },
    }
}

/// The size that a response tells of a file, whole or in part.
pub open spec fn declared_size(status: u16, range: Option<u64>, length: Option<u64>) -> Option<u64> {
    if (status == 206 || status == 416) && range is Some {
        range
    } else {
        match length {
            Some(n) => if n > 0 {
                Some(n)
            } else {
                None
            },
            None => None,
        }
    }
}

/// The size that a response tells: that of the whole file where it is a part, otherwise its own.
pub fn declared_content_size(status: u16, content_range: Option<&str>, content_length: Option<u64>) -> (r:
    Option<u64>)
    ensures
        r == declared_size(
            status,
            match content_range {
                Some(h) => range_total(h@),
                None => None,
            },
            content_length,
        ),
        r == {
            let total = match content_range {
                Some(h) => range_total(h@),
                None => None,
            };
            if (status == 206 || status == 416) && total is Some {
                total
            } else {
                match content_length {
                    Some(n) => if n > 0 {
                        Some(n)
                    } else {
                        None
                    },
                    None => None,
                }
            }
        },
{
    if status == 206 || status == 416 {
        let total: Option<u64> = content_range_total(content_range);
        if total.is_some() {
            return total;
        }
    }
    match content_length {
        Some(n) => if n > 0 {
            Some(n)
        } else {
            None
        },
        None => None,
    }
}

/// A transfer is allowed exactly where it keeps to the limit of the file and to what is left of the budget.
pub proof fn transfers_keep_to_both_limits(size: u64, most: u64, budget: ByteBudget)
    ensures
        transfer_outcome(size, most, budget) is Ok <==> size <= most && budget.used_bytes + size
            <= budget.max_bytes,
        transfer_outcome(size, most, budget) matches Err(e) ==> e is InvalidInput,
{
}

/// A smaller transfer is allowed wherever a larger one is, and with a larger budget as well.
pub proof fn smaller_transfers_are_allowed(
    size: u64,
    less: u64,
    most: u64,
    budget: ByteBudget,
    wider: ByteBudget,
)
    requires
        less <= size,
        wider.used_bytes <= budget.used_bytes,
        budget.max_bytes <= wider.max_bytes,
        transfer_outcome(size, most, budget) is Ok,
    ensures
        transfer_outcome(less, most, wider) is Ok,
{
}

/// Two chunks are allowed one after the other where they are allowed at once.
pub proof fn chunks_add_up(d: Download, a: u64, b: u64)
    requires
        a + b <= u64::MAX,
        d.chunk_outcome((a + b) as u64) is Ok,
    ensures
        d.chunk_outcome(a) is Ok,
        (Download { written: (d.written + a) as u64, ..d }).chunk_outcome(b) is Ok,
{
}

/// The payload of a data address is what follows the first comma, where the part before it says that it is
/// base64; an address of another kind has no payload.
pub proof fn payloads_follow_the_comma(metadata: Seq<char>, payload: Seq<char>)
    requires
        !scan::has_char(metadata, ','),
        scan::begins(metadata, "data:"@),
        text::trimmed(metadata + seq![','] + payload) == metadata + seq![','] + payload,
    ensures
        (exists|i: int|
            0 <= i < scan::split(metadata, text::only(';')).len() && text::lower_text(
                #[trigger] scan::split(metadata, text::only(';'))[i],
            ) == text::lower_text("base64"@)) ==> data_payload(metadata + seq![','] + payload) == Ok::<
            Option<Seq<char>>,
            ErrorView,
        >(Some(text::trimmed(payload))),
        (forall|i: int|
            0 <= i < scan::split(metadata, text::only(';')).len() ==> text::lower_text(
                #[trigger] scan::split(metadata, text::only(';'))[i],
            ) != text::lower_text("base64"@)) ==> data_payload(metadata + seq![','] + payload) is Err,
{
    let s = metadata + seq![','] + payload;
    scan::names_and_values_are_told_apart(metadata, ',', payload);
    let p = "data:"@;
    assert(s.subrange(0, p.len() as int) =~= metadata.subrange(0, p.len() as int));
}

/// An address that does not begin with `data:` has no payload.
pub proof fn other_addresses_have_no_payload(source: Seq<char>)
    ensures
        !scan::begins(text::trimmed(source), "data:"@) ==> data_payload(source) == Ok::<
            Option<Seq<char>>,
            ErrorView,
        >(None),
{
}

/// The size behind the stroke of a range is told, unless it is zero.
pub proof fn totals_are_read_back(n: u64, range: Seq<char>)
    requires
        text::trimmed(range + seq!['/'] + scan::decimal(n as nat)) == range + seq!['/'] + scan::decimal(
            n as nat,
        ),
    ensures
        n > 0 ==> range_total(range + seq!['/'] + scan::decimal(n as nat)) == Some(n),
        n == 0 ==> range_total(range + seq!['/'] + scan::decimal(n as nat)) is None,
{
    let d = scan::decimal(n as nat);
    scan::written_numbers_are_read_back(n as nat, u64::MAX as nat);
    scan::decimals_are_plain(n as nat);
    scan::last_part_follows(range, '/', d);
}

/// A video is uploaded exactly where it is not empty and no larger than the job allows.
pub proof fn videos_keep_to_their_limit(size: u64, most: u64)
    ensures
        output_outcome(size, most) is Ok <==> 0 < size <= most,
        output_outcome(size, most) matches Err(e) ==> e is InvalidInput,
{
}

/// The size of a file that comes in part is that of its range, and of any other one that of its length; a file
/// of no length tells none.
pub proof fn sizes_are_those_of_the_file(status: u16, range: u64, length: u64)
    ensures
        status == 206 || status == 416 ==> declared_size(status, Some(range), Some(length)) == Some(range),
        status != 206 && status != 416 && length > 0 ==> declared_size(status, Some(range), Some(length))
            == Some(length),
        length > 0 ==> declared_size(status, None, Some(length)) == Some(length),
        declared_size(status, None, Some(0)) is None,
        declared_size(status, None, None) is None,
{
}

/// A file that comes whole takes its size out of the budget, and only one that is not empty and keeps to both
/// limits is taken.
pub proof fn whole_files_are_counted(size: u64, most: u64, budget: ByteBudget)
    ensures
        taken_whole(size, most, budget) is Ok <==> 0 < size <= most && budget.used_bytes + size
            <= budget.max_bytes,
        taken_whole(size, most, budget) matches Ok(b) ==> b.used_bytes == budget.used_bytes + size
            && b.max_bytes == budget.max_bytes,
{
}

/// A text is sent exactly where it is no larger than is allowed, and a file for the benchmark comes chunk by chunk
/// as long as all of it is no larger.
pub proof fn sizes_are_limited(label: Seq<char>, size: u64, more: u64, most: u64)
    ensures
        json_outcome(label, size, most) is Ok <==> size <= most,
        size + more <= most ==> after_chunk(size, more, most) == Some((size + more) as u64),
        size + more > most ==> after_chunk(size, more, most) is None,
{
}

} // verus!
