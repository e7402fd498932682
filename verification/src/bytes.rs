//! Reading the little-endian records that osu! writes.
use crate::codec;
use crate::codec::text_from_bytes;
use crate::error::{AppError, AppResult, ErrorView};
use vstd::prelude::*;
use vstd::slice::{slice_subrange, slice_to_vec};

verus! {

/// Which file is being read; the messages name it.
#[derive(Clone, Copy, PartialEq, Eq, Structural)]
pub enum Source {
    Replay,
    OsuDb,
}

impl Source {
    /// The file ends too early.
    pub open spec fn ended(self) -> ErrorView {
        match self {
            Source::Replay => ErrorView::Process("unexpected end of replay data"@),
            Source::OsuDb => ErrorView::Process("unexpected end of osu!.db"@),
        }
    }

    /// A text begins with a marker that means nothing.
    pub open spec fn bad_marker(self) -> ErrorView {
        match self {
            Source::Replay => ErrorView::Process("replay string marker is invalid"@),
            Source::OsuDb => ErrorView::Process("osu!.db string marker is invalid"@),
        }
    }

    /// The length of a text takes too many bytes.
    pub open spec fn too_long(self) -> ErrorView {
        match self {
            Source::Replay => ErrorView::Process("replay string length is too large"@),
            Source::OsuDb => ErrorView::Process("osu!.db string length is too large"@),
        }
    }

    fn ended_error(self) -> (e: AppError)
        ensures
            e@ == self.ended(),
    {
        match self {
            Source::Replay => AppError::Process("unexpected end of replay data".to_owned()),
            Source::OsuDb => AppError::Process("unexpected end of osu!.db".to_owned()),
        }
    }

    fn marker_error(self) -> (e: AppError)
        ensures
            e@ == self.bad_marker(),
    {
        match self {
            Source::Replay => AppError::Process("replay string marker is invalid".to_owned()),
            Source::OsuDb => AppError::Process("osu!.db string marker is invalid".to_owned()),
        }
    }

    fn length_error(self) -> (e: AppError)
        ensures
            e@ == self.too_long(),
    {
        match self {
            Source::Replay => AppError::Process("replay string length is too large".to_owned()),
            Source::OsuDb => AppError::Process("osu!.db string length is too large".to_owned()),
        }
    }
}

// ---------------------------------------------------------------------------------------------
// Numbers
// ---------------------------------------------------------------------------------------------

/// The number that little-endian bytes stand for.
pub open spec fn le(b: Seq<u8>) -> nat
    decreases b.len(),
{
    if b.len() == 0 {
        0
    } else {
        b[0] as nat + 256 * le(b.skip(1))
    }
}

/// The same bytes read in two's complement of sixteen bits.
pub open spec fn le_i16(b: Seq<u8>) -> int {
    if le(b) < 0x8000 {
        le(b) as int
    } else {
        le(b) - 0x1_0000
    }
}

/// The same bytes read in two's complement of thirty-two bits.
pub open spec fn le_i32(b: Seq<u8>) -> int {
    if le(b) < 0x8000_0000 {
        le(b) as int
    } else {
        le(b) - 0x1_0000_0000
    }
}

/// The same bytes read in two's complement of sixty-four bits.
pub open spec fn le_i64(b: Seq<u8>) -> int {
    if le(b) < 0x8000_0000_0000_0000 {
        le(b) as int
    } else {
        le(b) - 0x1_0000_0000_0000_0000
    }
}

/// The largest number of so many bytes, plus one.
spec fn le_limit(n: nat) -> nat
    decreases n,
{
    if n == 0 {
        1
    } else {
        256 * le_limit((n - 1) as nat)
    }
}

proof fn le_bound(b: Seq<u8>)
    ensures
        le(b) < le_limit(b.len()),
    decreases b.len(),
{
    if b.len() > 0 {
        le_bound(b.skip(1));
    }
}

/// The unsigned number in `b[from..from + n]`.
fn unsigned_at(b: &[u8], from: usize, n: usize) -> (r: u64)
    requires
        from + n <= b.len(),
        n <= 8,
    ensures
        r == le(b@.subrange(from as int, from + n)),
    decreases n,
{
    let ghost s = b@.subrange(from as int, from + n);
    proof {
        le_bound(s);
        reveal_with_fuel(le_limit, 9);
    }
    if n == 0 {
        0
    } else {
        let rest: u64 = unsigned_at(b, from + 1, n - 1);
        proof {
            assert(s.skip(1) =~= b@.subrange(from + 1, from + n));
            le_bound(s.skip(1));
        }
        b[from] as u64 + 256 * rest
    }
}

/// The signed number in two bytes.
pub fn i16_at(b: &[u8], from: usize) -> (r: i16)
    requires
        from + 2 <= b.len(),
    ensures
        r == le_i16(b@.subrange(from as int, from + 2)),
{
    proof {
        le_bound(b@.subrange(from as int, from + 2));
        reveal_with_fuel(le_limit, 3);
    }
    let n: u64 = unsigned_at(b, from, 2);
    if n < 0x8000 {
        n as i16
    } else {
        (n as i32 - 0x1_0000) as i16
    }
}

/// The unsigned number in four bytes.
pub fn u32_at(b: &[u8], from: usize) -> (r: u32)
    requires
        from + 4 <= b.len(),
    ensures
        r == le(b@.subrange(from as int, from + 4)),
{
    proof {
        le_bound(b@.subrange(from as int, from + 4));
        reveal_with_fuel(le_limit, 5);
    }
    unsigned_at(b, from, 4) as u32
}

/// The signed number in four bytes.
pub fn i32_at(b: &[u8], from: usize) -> (r: i32)
    requires
        from + 4 <= b.len(),
    ensures
        r == le_i32(b@.subrange(from as int, from + 4)),
{
    let n: u32 = u32_at(b, from);
    if n < 0x8000_0000 {
        n as i32
    } else {
        (n as i64 - 0x1_0000_0000) as i32
    }
}

/// The signed number in eight bytes.
pub fn i64_at(b: &[u8], from: usize) -> (r: i64)
    requires
        from + 8 <= b.len(),
    ensures
        r == le_i64(b@.subrange(from as int, from + 8)),
{
    let n: u64 = unsigned_at(b, from, 8);
    if n < 0x8000_0000_0000_0000 {
        n as i64
    } else {
        (n as i128 - 0x1_0000_0000_0000_0000) as i64
    }
}

// ---------------------------------------------------------------------------------------------
// Lengths and texts
// ---------------------------------------------------------------------------------------------

/// A length in groups of seven bits, the low ones first. All bytes but the last carry a mark in
/// their top bit; `k` groups came before, and a length has nine of them at most.
pub open spec fn length_at(b: Seq<u8>, at: int, k: nat, src: Source) -> Result<(nat, int), ErrorView>
    decreases 9 - k,
{
    if k >= 9 {
        Err(src.too_long())
    } else if at >= b.len() {
        Err(src.ended())
    } else if b[at] < 128 {
        Ok((b[at] as nat, at + 1))
    } else {
        match length_at(b, at + 1, k + 1, src) {
            Ok((rest, next)) => Ok(((b[at] - 128) as nat + 128 * rest, next)),
            Err(e) => Err(e),
        }
    }
}

/// A length as it is written: groups of seven bits, the low ones first, with a mark in the top bit of
/// all of them but the last.
pub open spec fn written_length(n: nat) -> Seq<u8>
    decreases n,
{
    if n < 128 {
        seq![n as u8]
    } else {
        seq![(n % 128 + 128) as u8] + written_length(n / 128)
    }
}

/// A length that was written is read back, in no more than the groups that it takes.
proof fn groups_are_read_back(b: Seq<u8>, at: int, k: nat, n: nat, src: Source)
    requires
        0 <= at,
        k < 9,
        n < length_limit(9 - k),
        at + written_length(n).len() <= b.len(),
        b.subrange(at, at + written_length(n).len()) == written_length(n),
    ensures
        length_at(b, at, k, src) == Ok::<(nat, int), ErrorView>((n, at + written_length(n).len())),
    decreases n,
{
    let w = written_length(n);
    let len = w.len() as int;
    if n < 128 {
        assert(len == 1);
        assert(b.subrange(at, at + len)[0] == b[at]);
        assert(b[at] == n as u8);
    } else {
        let rest = written_length(n / 128);
        assert(w.len() == 1 + rest.len());
        assert(b.subrange(at, at + len)[0] == b[at]);
        assert(w[0] == (n % 128 + 128) as u8);
        assert(k + 1 < 9) by {
            if k == 8 {
                reveal_with_fuel(length_limit, 3);
            }
        }
        assert(length_limit(9 - k) == 128 * length_limit(9 - k - 1));
        assert(n / 128 < length_limit(9 - (k + 1)));
        assert(b.subrange(at + 1, at + 1 + rest.len()) =~= rest) by {
            assert forall|i: int| 0 <= i < rest.len() implies #[trigger] b.subrange(
                at + 1,
                at + 1 + rest.len(),
            )[i] == rest[i] by {
                assert(b.subrange(at, at + len)[i + 1] == w[i + 1]);
                assert(b[at + 1 + i] == w[i + 1]);
            }
        }
        groups_are_read_back(b, at + 1, k + 1, n / 128, src);
    }
}

/// Every length that fits sixty-three bits is read back from where it was written, and the reader then
/// stands behind it.
pub proof fn lengths_are_read_back(b: Seq<u8>, at: int, n: nat, src: Source)
    requires
        0 <= at,
        n < 0x8000_0000_0000_0000,
        at + written_length(n).len() <= b.len(),
        b.subrange(at, at + written_length(n).len()) == written_length(n),
    ensures
        length_at(b, at, 0, src) == Ok::<(nat, int), ErrorView>((n, at + written_length(n).len())),
{
    reveal_with_fuel(length_limit, 11);
    assert(length_limit(9) == 0x8000_0000_0000_0000);
    groups_are_read_back(b, at, 0, n, src);
}

/// Some marked groups come to what follows them, or to no length at all.
proof fn marked_groups_go_on(b: Seq<u8>, at: int, k: nat, src: Source)
    requires
        0 <= at,
        k <= 9,
        at + 9 - k <= b.len(),
        forall|i: int| at <= i < at + 9 - k ==> #[trigger] b[i] >= 128,
    ensures
        length_at(b, at, k, src) == Err::<(nat, int), ErrorView>(src.too_long()),
    decreases 9 - k,
{
    if k < 9 {
        assert(b[at] >= 128);
        marked_groups_go_on(b, at + 1, k + 1, src);
    }
}

/// A length whose first nine groups are all marked as not the last is refused.
pub proof fn endless_lengths_are_refused(b: Seq<u8>, at: int, src: Source)
    requires
        0 <= at,
        at + 9 <= b.len(),
        forall|i: int| at <= i < at + 9 ==> #[trigger] b[i] >= 128,
    ensures
        length_at(b, at, 0, src) == Err::<(nat, int), ErrorView>(src.too_long()),
{
    marked_groups_go_on(b, at, 0, src);
}

/// So many bytes, as they are.
pub open spec fn block_at(b: Seq<u8>, at: int, n: nat, src: Source) -> Result<
    (Seq<u8>, int),
    ErrorView,
> {
    if at + n > b.len() {
        Err(src.ended())
    } else {
        Ok((b.subrange(at, at + n), at + n))
    }
}

/// A text: a zero byte for the empty one; otherwise a marker, the length in bytes, and the bytes.
pub open spec fn string_at(b: Seq<u8>, at: int, src: Source) -> Result<(Seq<char>, int), ErrorView> {
    if at >= b.len() {
        Err(src.ended())
    } else if b[at] == 0 {
        Ok((Seq::empty(), at + 1))
    } else if b[at] != 0x0b {
        Err(src.bad_marker())
    } else {
        match length_at(b, at + 1, 0, src) {
            Ok((n, from)) => match block_at(b, from, n, src) {
                Ok((block, next)) => Ok((codec::lossy(block), next)),
                Err(e) => Err(e),
            },
            Err(e) => Err(e),
        }
    }
}

// ---------------------------------------------------------------------------------------------
// Layouts
// ---------------------------------------------------------------------------------------------

/// One part of a record: a block of so many bytes, or a text.
#[derive(Clone, Copy, PartialEq, Eq, Structural)]
pub enum Part {
    Block(usize),
    Text,
}

/// What stood in one part of a record.
pub enum Piece {
    Block(Vec<u8>),
    Text(String),
}

/// What a piece holds.
pub enum PieceView {
    Block(Seq<u8>),
    Text(Seq<char>),
}

impl View for Piece {
    type V = PieceView;

    open spec fn view(&self) -> PieceView {
        match self {
            Piece::Block(b) => PieceView::Block(b@),
            Piece::Text(s) => PieceView::Text(s@),
        }
    }
}

/// What stands in one part of a record.
pub open spec fn piece_at(b: Seq<u8>, at: int, part: Part, src: Source) -> Result<
    (PieceView, int),
    ErrorView,
> {
    match part {
        Part::Block(n) => match block_at(b, at, n as nat, src) {
            Ok((block, next)) => Ok((PieceView::Block(block), next)),
            Err(e) => Err(e),
        },
        Part::Text => match string_at(b, at, src) {
            Ok((s, next)) => Ok((PieceView::Text(s), next)),
            Err(e) => Err(e),
        },
    }
}

/// What stands in the parts of a record, one after the other.
pub open spec fn pieces_at(b: Seq<u8>, at: int, parts: Seq<Part>, src: Source) -> Result<
    (Seq<PieceView>, int),
    ErrorView,
>
    decreases parts.len(),
{
    if parts.len() == 0 {
        Ok((Seq::empty(), at))
    } else {
        match pieces_at(b, at, parts.drop_last(), src) {
            Ok((before, mid)) => match piece_at(b, mid, parts.last(), src) {
                Ok((p, next)) => Ok((before.push(p), next)),
                Err(e) => Err(e),
            },
            Err(e) => Err(e),
        }
    }
}

/// What is read behind some more bytes, told from its new position.
pub open spec fn further<T>(r: Result<(T, int), ErrorView>, by: int) -> Result<(T, int), ErrorView> {
    match r {
        Ok((v, next)) => Ok((v, next + by)),
        Err(e) => Err(e),
    }
}

proof fn length_further(x: Seq<u8>, b: Seq<u8>, at: int, k: nat, src: Source)
    requires
        0 <= at,
    ensures
        length_at(x + b, at + x.len(), k, src) == further(length_at(b, at, k, src), x.len() as int),
    decreases 9 - k,
{
    if k < 9 && at < b.len() {
        assert((x + b)[at + x.len()] == b[at]);
        if b[at] >= 128 {
            length_further(x, b, at + 1, k + 1, src);
        }
    }
}

/// A block stands as far behind some more bytes as it stood without them.
pub proof fn block_further(x: Seq<u8>, b: Seq<u8>, at: int, n: nat, src: Source)
    requires
        0 <= at,
    ensures
        block_at(x + b, at + x.len(), n, src) == further(block_at(b, at, n, src), x.len() as int),
{
    if at + n <= b.len() {
        assert((x + b).subrange(at + x.len(), at + x.len() + n) =~= b.subrange(at, at + n));
    }
}

proof fn piece_further(x: Seq<u8>, b: Seq<u8>, at: int, part: Part, src: Source)
    requires
        0 <= at,
    ensures
        piece_at(x + b, at + x.len(), part, src) == further(
            piece_at(b, at, part, src),
            x.len() as int,
        ),
{
    match part {
        Part::Block(n) => {
            block_further(x, b, at, n as nat, src);
        },
        Part::Text => {
            if at < b.len() {
                assert((x + b)[at + x.len()] == b[at]);
                length_further(x, b, at + 1, 0, src);
                if let Ok((n, from)) = length_at(b, at + 1, 0, src) {
                    length_next(b, at + 1, 0, src);
                    block_further(x, b, from, n, src);
                }
            }
        },
    }
}

/// The parts of a record stand as far behind some more bytes as they stood without them.
pub proof fn pieces_further(x: Seq<u8>, b: Seq<u8>, at: int, parts: Seq<Part>, src: Source)
    requires
        0 <= at,
    ensures
        pieces_at(x + b, at + x.len(), parts, src) == further(
            pieces_at(b, at, parts, src),
            x.len() as int,
        ),
        pieces_at(b, at, parts, src) matches Ok((_, next)) ==> at <= next,
    decreases parts.len(),
{
    if parts.len() > 0 {
        pieces_further(x, b, at, parts.drop_last(), src);
        if let Ok((_, mid)) = pieces_at(b, at, parts.drop_last(), src) {
            piece_further(x, b, mid, parts.last(), src);
            if parts.last() is Text && mid < b.len() {
                length_next(b, mid + 1, 0, src);
            }
        }
    }
}

/// A block in the record, and its length.
proof fn piece_len(b: Seq<u8>, at: int, part: Part, src: Source)
    requires
        0 <= at,
    ensures
        piece_at(b, at, part, src) matches Ok((p, next)) ==> match part {
            Part::Block(n) => p is Block && p->Block_0.len() == n,
            Part::Text => p is Text,
        },
{
}

proof fn length_next(b: Seq<u8>, at: int, k: nat, src: Source)
    requires
        0 <= at,
    ensures
        length_at(b, at, k, src) matches Ok((n, next)) ==> at < next <= b.len(),
    decreases 9 - k,
{
    if k < 9 && at < b.len() && b[at] >= 128 {
        length_next(b, at + 1, k + 1, src);
    }
}

proof fn piece_next(b: Seq<u8>, at: int, part: Part, src: Source)
    requires
        0 <= at <= b.len(),
    ensures
        piece_at(b, at, part, src) matches Ok((p, next)) ==> at <= next <= b.len(),
{
    if at < b.len() {
        length_next(b, at + 1, 0, src);
    }
}

/// Each piece of a record has the form of its part.
pub proof fn pieces_shape(b: Seq<u8>, at: int, parts: Seq<Part>, src: Source)
    requires
        0 <= at <= b.len(),
    ensures
        pieces_at(b, at, parts, src) matches Ok((ps, next)) ==> {
            &&& at <= next <= b.len()
            &&& ps.len() == parts.len()
            &&& forall|i: int|
                0 <= i < ps.len() ==> match parts[i] {
                    Part::Block(n) => #[trigger] ps[i] is Block && ps[i]->Block_0.len() == n,
                    Part::Text => ps[i] is Text,
                }
        },
    decreases parts.len(),
{
    if parts.len() > 0 {
        let front = parts.drop_last();
        pieces_shape(b, at, front, src);
        if let Ok((before, mid)) = pieces_at(b, at, front, src) {
            piece_len(b, mid, parts.last(), src);
            piece_next(b, mid, parts.last(), src);
            if let Ok((ps, next)) = pieces_at(b, at, parts, src) {
                assert forall|i: int| 0 <= i < ps.len() implies match parts[i] {
                    Part::Block(n) => #[trigger] ps[i] is Block && ps[i]->Block_0.len() == n,
                    Part::Text => ps[i] is Text,
                } by {
                    if i < before.len() {
                        assert(parts[i] == front[i]);
                        assert(ps[i] == before[i]);
                    }
                }
            }
        }
    }
}

proof fn length_extend(b: Seq<u8>, more: Seq<u8>, at: int, k: nat, src: Source)
    requires
        0 <= at,
        length_at(b, at, k, src) is Ok,
    ensures
        length_at(b + more, at, k, src) == length_at(b, at, k, src),
    decreases 9 - k,
{
    assert((b + more)[at] == b[at]);
    if b[at] >= 128 {
        length_extend(b, more, at + 1, k + 1, src);
    }
}

/// What can be read of a file is read as well when more bytes follow.
pub proof fn pieces_extend(b: Seq<u8>, more: Seq<u8>, at: int, parts: Seq<Part>, src: Source)
    requires
        0 <= at <= b.len(),
        pieces_at(b, at, parts, src) is Ok,
    ensures
        pieces_at(b + more, at, parts, src) == pieces_at(b, at, parts, src),
    decreases parts.len(),
{
    if parts.len() > 0 {
        let front = parts.drop_last();
        pieces_extend(b, more, at, front, src);
        pieces_shape(b, at, front, src);
        let mid = pieces_at(b, at, front, src)->Ok_0.1;
        match parts.last() {
            Part::Block(n) => {
                assert((b + more).subrange(mid, mid + n) =~= b.subrange(mid, mid + n));
            },
            Part::Text => {
                assert((b + more)[mid] == b[mid]);
                if b[mid] == 0x0b {
                    length_extend(b, more, mid + 1, 0, src);
                    length_next(b, mid + 1, 0, src);
                    let (n, from) = length_at(b, mid + 1, 0, src)->Ok_0;
                    assert((b + more).subrange(from, from + n) =~= b.subrange(from, from + n));
                }
            },
        }
    }
}

// ---------------------------------------------------------------------------------------------
// The reader
// ---------------------------------------------------------------------------------------------

/// A position in the bytes of a file.
pub struct Reader<'a> {
    pub bytes: &'a [u8],
    pub offset: usize,
    pub source: Source,
}

/// What the parts of a result say, with the position that the reader has come to.
pub open spec fn pieces_view(v: Seq<Piece>) -> Seq<PieceView> {
    Seq::new(v.len(), |i: int| v[i]@)
}

/// One more than the largest length of so many groups.
spec fn length_limit(n: int) -> nat
    decreases n,
{
    if n <= 0 {
        1
    } else {
        128 * length_limit(n - 1)
    }
}

impl<'a> Reader<'a> {
    /// The position lies in the file or at its end.
    pub open spec fn ok(self) -> bool {
        self.offset <= self.bytes@.len()
    }

    /// This reader has come from that one, and lies in the file or at its end.
    pub open spec fn stays(self, from: Self) -> bool {
        self.ok() && self.bytes == from.bytes && self.source == from.source
    }

    /// This reader has come from that one, to the given position.
    pub open spec fn moved(self, from: Self, to: int) -> bool {
        &&& self.bytes == from.bytes
        &&& self.source == from.source
        &&& self.offset == to
    }

    /// A reader at the beginning of the file.
    pub fn new(bytes: &'a [u8], source: Source) -> (r: Self)
        ensures
            r.bytes == bytes,
            r.source == source,
            r.offset == 0,
    {
        Reader { bytes, offset: 0, source }
    }

    /// Reads one byte.
    pub fn read_u8(&mut self) -> (r: AppResult<u8>)
        requires
            old(self).ok(),
        ensures
            match r {
                Ok(v) => {
                    &&& old(self).offset < old(self).bytes@.len()
                    &&& v == old(self).bytes@[old(self).offset as int]
                    &&& final(self).moved(*old(self), old(self).offset + 1)
                },
                Err(e) => {
                    &&& old(self).offset == old(self).bytes@.len()
                    &&& e@ == old(self).source.ended()
                    &&& *final(self) == *old(self)
                },
            },
    {
        if self.offset >= self.bytes.len() {
            return Err(self.source.ended_error());
        }
        let v: u8 = self.bytes[self.offset];
        self.offset = self.offset + 1;
        Ok(v)
    }

    /// Reads a block of bytes.
    pub fn read_exact(&mut self, n: usize) -> (r: AppResult<Vec<u8>>)
        requires
            old(self).ok(),
        ensures
            final(self).stays(*old(self)),
            match block_at(old(self).bytes@, old(self).offset as int, n as nat, old(self).source) {
                Ok((block, next)) => {
                    &&& r matches Ok(v) && v@ == block
                    &&& final(self).moved(*old(self), next)
                },
                Err(e) => {
                    &&& r matches Err(err) && err@ == e
                    &&& *final(self) == *old(self)
                },
            },
    {
        if n > self.bytes.len() - self.offset {
            return Err(self.source.ended_error());
        }
        let block = slice_to_vec(slice_subrange(self.bytes, self.offset, self.offset + n));
        self.offset = self.offset + n;
        Ok(block)
    }

    /// Moves past a block of bytes.
    pub fn skip(&mut self, n: usize) -> (r: AppResult<()>)
        requires
            old(self).ok(),
        ensures
            final(self).stays(*old(self)),
            match block_at(old(self).bytes@, old(self).offset as int, n as nat, old(self).source) {
                Ok((block, next)) => r is Ok && final(self).moved(*old(self), next),
                Err(e) => {
                    &&& r matches Err(err) && err@ == e
                    &&& *final(self) == *old(self)
                },
            },
    {
        if n > self.bytes.len() - self.offset {
            return Err(self.source.ended_error());
        }
        self.offset = self.offset + n;
        Ok(())
    }

    /// Reads the length of a text, `k` groups of which were read before.
    fn read_length(&mut self, k: u8) -> (r: AppResult<u64>)
        requires
            old(self).ok(),
            k <= 9,
        ensures
            final(self).stays(*old(self)),
            match length_at(old(self).bytes@, old(self).offset as int, k as nat, old(self).source) {
                Ok((n, next)) => {
                    &&& r matches Ok(v) && v == n
                    &&& n < length_limit(9 - k)
                    &&& final(self).moved(*old(self), next)
                },
                Err(e) => r matches Err(err) && err@ == e,
            },
        decreases 9 - k,
    {
        if k == 9 {
            return Err(self.source.length_error());
        }
        let first = self.read_u8();
        match first {
            Err(e) => Err(e),
            Ok(byte) => {
                proof {
                    reveal_with_fuel(length_limit, 11);
                }
                if byte < 128 {
                    return Ok(byte as u64);
                }
                let rest = self.read_length(k + 1);
                match rest {
                    Err(e) => Err(e),
                    Ok(n) => Ok((byte - 128) as u64 + 128 * n),
                }
            },
        }
    }

    /// Reads the length of a text.
    pub fn read_uleb128(&mut self) -> (r: AppResult<u64>)
        requires
            old(self).ok(),
        ensures
            final(self).stays(*old(self)),
            match length_at(old(self).bytes@, old(self).offset as int, 0, old(self).source) {
                Ok((n, next)) => {
                    &&& r matches Ok(v) && v == n
                    &&& final(self).moved(*old(self), next)
                },
                Err(e) => r matches Err(err) && err@ == e,
            },
    {
        self.read_length(0)
    }

    /// Reads a text.
    pub fn read_string(&mut self) -> (r: AppResult<String>)
        requires
            old(self).ok(),
        ensures
            final(self).stays(*old(self)),
            match string_at(old(self).bytes@, old(self).offset as int, old(self).source) {
                Ok((s, next)) => {
                    &&& r matches Ok(v) && v@ == s
                    &&& final(self).moved(*old(self), next)
                },
                Err(e) => r matches Err(err) && err@ == e,
            },
    {
        let marker = self.read_u8();
        match marker {
            Err(e) => Err(e),
            Ok(m) => {
                if m == 0 {
                    return Ok(String::new());
                }
                if m != 0x0b {
                    return Err(self.source.marker_error());
                }
                let length = self.read_uleb128();
                match length {
                    Err(e) => Err(e),
                    Ok(n) => {
                        if n > (self.bytes.len() - self.offset) as u64 {
                            return Err(self.source.ended_error());
                        }
                        let block = self.read_exact(n as usize);
                        match block {
                            Err(e) => Err(e),
                            Ok(v) => Ok(text_from_bytes(v.as_slice())),
                        }
                    },
                }
            },
        }
    }

    /// Reads one part of a record.
    pub fn read_piece(&mut self, part: Part) -> (r: AppResult<Piece>)
        requires
            old(self).ok(),
        ensures
            final(self).stays(*old(self)),
            match piece_at(old(self).bytes@, old(self).offset as int, part, old(self).source) {
                Ok((p, next)) => {
                    &&& r matches Ok(v) && v@ == p
                    &&& final(self).moved(*old(self), next)
                },
                Err(e) => r matches Err(err) && err@ == e,
            },
    {
        match part {
            Part::Block(n) => {
                let block = self.read_exact(n);
                match block {
                    Ok(v) => Ok(Piece::Block(v)),
                    Err(e) => Err(e),
                }
            },
            Part::Text => {
                let text = self.read_string();
                match text {
                    Ok(v) => Ok(Piece::Text(v)),
                    Err(e) => Err(e),
                }
            },
        }
    }

    /// Reads the parts of a record, one after the other.
    pub fn read_pieces(&mut self, parts: &[Part]) -> (r: AppResult<Vec<Piece>>)
        requires
            old(self).ok(),
        ensures
            final(self).stays(*old(self)),
            match pieces_at(old(self).bytes@, old(self).offset as int, parts@, old(self).source) {
                Ok((ps, next)) => {
                    &&& r matches Ok(v) && pieces_view(v@) == ps
                    &&& final(self).moved(*old(self), next)
                },
                Err(e) => r matches Err(err) && err@ == e,
            },
    {
        let mut out: Vec<Piece> = Vec::new();
        let mut i: usize = 0;
        let ghost b = self.bytes@;
        let ghost at = self.offset as int;
        let ghost src = self.source;
        assert(parts@.take(0) =~= Seq::empty());
        assert(pieces_view(out@) =~= Seq::empty());
        while i < parts.len()
            invariant
                i <= parts@.len(),
                self.ok(),
                self.bytes@ == b,
                self.stays(*old(self)),
                self.source == src,
                src == old(self).source,
                b == old(self).bytes@,
                at == old(self).offset,
                pieces_at(b, at, parts@.take(i as int), src) == Ok::<_, ErrorView>(
                    (pieces_view(out@), self.offset as int),
                ),
            decreases parts@.len() - i,
        {
            proof {
                assert(parts@.take(i + 1).drop_last() =~= parts@.take(i as int));
                assert(parts@.take(i + 1).last() == parts@[i as int]);
            }
            let ghost before = pieces_view(out@);
            let ghost mid = self.offset as int;
            let piece = self.read_piece(parts[i]);
            match piece {
                Err(e) => {
                    proof {
                        pieces_fail(b, at, parts@, i + 1, src, e@);
                    }
                    return Err(e);
                },
                Ok(p) => {
                    proof {
                        assert(pieces_view(out@.push(p)) =~= before.push(p@));
                    }
                    out.push(p);
                },
            }
            i = i + 1;
        }
        assert(parts@.take(parts@.len() as int) =~= parts@);
        Ok(out)
    }
}

/// A record that fails at one of its parts fails as a whole, in the same way.
proof fn pieces_fail(b: Seq<u8>, at: int, parts: Seq<Part>, k: int, src: Source, e: ErrorView)
    requires
        0 <= k <= parts.len(),
        pieces_at(b, at, parts.take(k), src) == Err::<(Seq<PieceView>, int), _>(e),
    ensures
        pieces_at(b, at, parts, src) == Err::<(Seq<PieceView>, int), _>(e),
    decreases parts.len() - k,
{
    if k == parts.len() {
        assert(parts.take(k) =~= parts);
    } else {
        assert(parts.take(k + 1).drop_last() =~= parts.take(k));
        pieces_fail(b, at, parts, k + 1, src, e);
    }
}

// ---------------------------------------------------------------------------------------------
// What was written is read back
// ---------------------------------------------------------------------------------------------

/// A number as it is written in so many bytes, the low ones first; one below zero in two's complement.
pub open spec fn written_number(n: int, count: nat) -> Seq<u8>
    decreases count,
{
    if count == 0 {
        Seq::empty()
    } else {
        seq![(n % 256) as u8] + written_number(n / 256, (count - 1) as nat)
    }
}

/// A text as it is written: a marker, the number of its bytes, and its bytes.
pub open spec fn written_text(t: Seq<u8>) -> Seq<u8> {
    seq![11u8] + written_length(t.len()) + t
}

/// Some bytes stand at a position of others.
pub open spec fn stands(b: Seq<u8>, at: int, w: Seq<u8>) -> bool {
    0 <= at && at + w.len() <= b.len() && b.subrange(at, at + w.len()) == w
}

/// A number takes as many bytes as were asked for.
pub proof fn numbers_take_their_bytes(n: int, count: nat)
    ensures
        written_number(n, count).len() == count,
    decreases count,
{
    if count > 0 {
        numbers_take_their_bytes(n / 256, (count - 1) as nat);
    }
}

proof fn small_numbers_are_read(n: int, count: nat)
    requires
        0 <= n < le_limit(count),
    ensures
        le(written_number(n, count)) == n,
    decreases count,
{
    if count > 0 {
        small_numbers_are_read(n / 256, (count - 1) as nat);
        assert(written_number(n, count).skip(1) =~= written_number(n / 256, (count - 1) as nat));
    }
}

proof fn numbers_wrap(n: int, count: nat)
    ensures
        written_number(n + le_limit(count), count) == written_number(n, count),
    decreases count,
{
    if count > 0 {
        let less = (count - 1) as nat;
        let limit = le_limit(less) as int;
        assert(le_limit(count) == 256 * limit);
        assert((n + 256 * limit) % 256 == n % 256);
        assert((n + 256 * limit) / 256 == n / 256 + limit);
        numbers_wrap(n / 256, less);
    }
}

proof fn limits_of_numbers()
    ensures
        le_limit(1) == 0x100,
        le_limit(2) == 0x1_0000,
        le_limit(4) == 0x1_0000_0000,
        le_limit(8) == 0x1_0000_0000_0000_0000,
{
    reveal_with_fuel(le_limit, 9);
}

/// A number is read back from the bytes that it was written in, whether it has a sign or not.
pub proof fn numbers_are_read_back(n: int)
    ensures
        0 <= n < 0x1_0000_0000 ==> le(written_number(n, 4)) == n,
        -0x8000 <= n < 0x8000 ==> le_i16(written_number(n, 2)) == n,
        -0x8000_0000 <= n < 0x8000_0000 ==> le_i32(written_number(n, 4)) == n,
        -0x8000_0000_0000_0000 <= n < 0x8000_0000_0000_0000 ==> le_i64(written_number(n, 8)) == n,
{
    limits_of_numbers();
    if 0 <= n {
        if n < le_limit(2) {
            small_numbers_are_read(n, 2);
        }
        if n < le_limit(4) {
            small_numbers_are_read(n, 4);
        }
        if n < le_limit(8) {
            small_numbers_are_read(n, 8);
        }
    } else {
        numbers_wrap(n, 2);
        numbers_wrap(n, 4);
        numbers_wrap(n, 8);
        if 0 <= n + le_limit(2) {
            small_numbers_are_read(n + le_limit(2), 2);
        }
        if 0 <= n + le_limit(4) {
            small_numbers_are_read(n + le_limit(4), 4);
        }
        if 0 <= n + le_limit(8) {
            small_numbers_are_read(n + le_limit(8), 8);
        }
    }
}

/// A text is read back from where it was written, and the reader then stands behind it; a zero is a text
/// without characters, and no other byte begins one.
pub proof fn texts_are_read_back(b: Seq<u8>, at: int, t: Seq<u8>, src: Source)
    requires
        0 <= at < b.len(),
    ensures
        stands(b, at, written_text(t)) && t.len() < 0x8000_0000_0000_0000 ==> string_at(b, at, src) == Ok::<
            (Seq<char>, int),
            ErrorView,
        >((codec::lossy(t), at + written_text(t).len())),
        b[at] == 0 ==> string_at(b, at, src) == Ok::<(Seq<char>, int), ErrorView>((Seq::empty(), at + 1)),
        b[at] != 0 && b[at] != 11 ==> string_at(b, at, src) is Err,
{
    let w = written_text(t);
    let l = written_length(t.len());
    if stands(b, at, w) && t.len() < 0x8000_0000_0000_0000 {
        let all = b.subrange(at, at + w.len());
        assert(all[0] == b[at]);
        assert(w[0] == 11u8);
        assert(b.subrange(at + 1, at + 1 + l.len()) =~= l) by {
            assert(all.subrange(1, 1 + l.len() as int) =~= l);
            assert(b.subrange(at + 1, at + 1 + l.len()) =~= all.subrange(1, 1 + l.len() as int));
        }
        lengths_are_read_back(b, at + 1, t.len(), src);
        let from = at + 1 + l.len();
        assert(b.subrange(from, from + t.len()) =~= t) by {
            let k = 1 + l.len() as int;
            assert(all.subrange(k, k + t.len()) =~= t);
            assert(b.subrange(from, from + t.len()) =~= all.subrange(k, k + t.len()));
        }
    }
}

/// What one part of a record is written as.
pub open spec fn written_piece(part: Part, content: Seq<u8>) -> Seq<u8> {
    match part {
        Part::Block(_) => content,
        Part::Text => written_text(content),
    }
}

/// The content is one that the part can have.
pub open spec fn fits(part: Part, content: Seq<u8>) -> bool {
    match part {
        Part::Block(n) => content.len() == n,
        Part::Text => content.len() < 0x8000_0000_0000_0000,
    }
}

/// What one part of a record is read as.
pub open spec fn read_piece(part: Part, content: Seq<u8>) -> PieceView {
    match part {
        Part::Block(_) => PieceView::Block(content),
        Part::Text => PieceView::Text(codec::lossy(content)),
    }
}

/// A record as it is written: its parts, one after the other.
pub open spec fn written_pieces(parts: Seq<Part>, contents: Seq<Seq<u8>>) -> Seq<u8>
    decreases parts.len(),
{
    if parts.len() == 0 {
        Seq::empty()
    } else {
        written_pieces(parts.drop_last(), contents.drop_last()) + written_piece(
            parts.last(),
            contents.last(),
        )
    }
}

/// A record is read back from where it was written, part by part, and the reader then stands behind it.
pub proof fn records_are_read_back(
    b: Seq<u8>,
    at: int,
    parts: Seq<Part>,
    contents: Seq<Seq<u8>>,
    src: Source,
)
    requires
        parts.len() == contents.len(),
        forall|i: int| 0 <= i < parts.len() ==> fits(#[trigger] parts[i], contents[i]),
        stands(b, at, written_pieces(parts, contents)),
    ensures
        pieces_at(b, at, parts, src) == Ok::<(Seq<PieceView>, int), ErrorView>(
            (
                Seq::new(parts.len(), |i: int| read_piece(parts[i], contents[i])),
                at + written_pieces(parts, contents).len(),
            ),
        ),
    decreases parts.len(),
{
    let read = Seq::new(parts.len(), |i: int| read_piece(parts[i], contents[i]));
    if parts.len() == 0 {
        assert(read =~= Seq::empty());
    } else {
        let n: int = parts.len() - 1;
        let first = parts.drop_last();
        let before = contents.drop_last();
        let w = written_pieces(parts, contents);
        let a = written_pieces(first, before);
        let c = written_piece(parts.last(), contents.last());
        let all = b.subrange(at, at + w.len());
        assert(b.subrange(at, at + a.len()) =~= a) by {
            assert(all.subrange(0, a.len() as int) =~= a);
            assert(b.subrange(at, at + a.len()) =~= all.subrange(0, a.len() as int));
        }
        assert forall|i: int| 0 <= i < first.len() implies fits(#[trigger] first[i], before[i]) by {
            assert(fits(parts[i], contents[i]));
        }
        records_are_read_back(b, at, first, before, src);
        let mid = at + a.len();
        assert(b.subrange(mid, mid + c.len()) =~= c) by {
            let k = a.len() as int;
            assert(all.subrange(k, k + c.len()) =~= c);
            assert(b.subrange(mid, mid + c.len()) =~= all.subrange(k, k + c.len()));
        }
        assert(fits(parts[n], contents[n]));
        match parts.last() {
            Part::Block(_) => {},
            Part::Text => {
                assert(c.len() > 0);
                texts_are_read_back(b, mid, contents.last(), src);
            },
        }
        let less = Seq::new(first.len(), |i: int| read_piece(first[i], before[i]));
        assert(less.push(read_piece(parts[n], contents[n])) =~= read);
    }
}

} // verus!
