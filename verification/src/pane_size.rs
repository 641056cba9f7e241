//! Position and size of a terminal viewport, measured in character rows and
//! columns, and the parser for a size written as `rows=<n>,cols=<n>`.
//!
//! Dimensions constrained by a flexible percentage of the screen are not
//! modeled here: their arithmetic is floating point and stays with the
//! layout engine.

use vstd::prelude::*;
use vstd::string::StringSliceAdditionalSpecFns;
use crate::bytestr::IntParseError;
use crate::bytestr::parse_usize;
use crate::bytestr::spec_parse_usize;
use crate::bytestr::spec_split;
use crate::bytestr::spec_trim;
use crate::bytestr::split_bytes;
use crate::bytestr::trim_bytes;

verus! {

/// A rectangle of character cells at a position.
#[derive(Clone, Copy, Debug, PartialEq, Eq, Structural)]
pub struct Viewport {
    pub x: usize,
    pub y: usize,
    pub rows: usize,
    pub cols: usize,
}

impl Viewport {
    /// A viewport can be drawn into only when both dimensions are positive.
    pub fn has_positive_size(&self) -> (r: bool)
        ensures
            r == (self.rows > 0 && self.cols > 0),
    {
        self.rows > 0 && self.cols > 0
    }
}

impl Default for Viewport {
    fn default() -> (v: Viewport)
        ensures
            v == (Viewport { x: 0, y: 0, rows: 0, cols: 0 }),
    {
        Viewport { x: 0, y: 0, rows: 0, cols: 0 }
    }
}

/// Margins applied to the four edges of a viewport.
#[derive(Clone, Copy, Debug, PartialEq, Eq, Structural)]
pub struct Offset {
    pub top: usize,
    pub bottom: usize,
    pub right: usize,
    pub left: usize,
}

impl Default for Offset {
    fn default() -> (o: Offset)
        ensures
            o == (Offset { top: 0, bottom: 0, right: 0, left: 0 }),
    {
        Offset { top: 0, bottom: 0, right: 0, left: 0 }
    }
}

impl Offset {
    /// The same margin on all four edges, as a frame takes.
    pub fn frame(size: usize) -> (o: Offset)
        ensures
            o == (Offset { top: size, bottom: size, right: size, left: size }),
    {
        Offset { top: size, bottom: size, right: size, left: size }
    }

    /// Margins on the right and top edges only.
    pub fn shift_right_and_top(right: usize, top: usize) -> (o: Offset)
        ensures
            o == (Offset { top, bottom: 0, right, left: 0 }),
    {
        Offset { top, bottom: 0, right, left: 0 }
    }

    /// Margins on the bottom and right edges only.
    pub fn shift(bottom: usize, right: usize) -> (o: Offset)
        ensures
            o == (Offset { top: 0, bottom, right, left: 0 }),
    {
        Offset { top: 0, bottom, right, left: 0 }
    }
}

/// A terminal size in character cells.
#[derive(Clone, Copy, Debug, PartialEq, Eq, Structural)]
pub struct Size {
    pub rows: usize,
    pub cols: usize,
}

impl Default for Size {
    fn default() -> (s: Size)
        ensures
            s == (Size { rows: 0, cols: 0 }),
    {
        Size { rows: 0, cols: 0 }
    }
}

/// A size in pixels, as reported alongside cell geometry.
#[derive(Clone, Copy, Debug, PartialEq, Eq, Structural)]
pub struct SizeInPixels {
    pub height: usize,
    pub width: usize,
}

impl From<Size> for Viewport {
    fn from(size: Size) -> (v: Viewport) {
        Viewport { x: 0, y: 0, rows: size.rows, cols: size.cols }
    }
}

impl vstd::std_specs::convert::FromSpecImpl<Size> for Viewport {
    open spec fn obeys_from_spec() -> bool {
        true
    }

    open spec fn from_spec(size: Size) -> Viewport {
        Viewport { x: 0, y: 0, rows: size.rows, cols: size.cols }
    }
}

/// The bytes of the key naming the row count.
pub open spec fn spec_rows_key() -> Seq<u8> {
    seq![114u8, 111u8, 119u8, 115u8]
}

/// The bytes of the key naming the column count.
pub open spec fn spec_cols_key() -> Seq<u8> {
    seq![99u8, 111u8, 108u8, 115u8]
}

/// Why a size string was rejected.
#[derive(Clone, Copy, Debug, PartialEq, Eq, Structural)]
pub enum SizeParseError {
    /// An entry was not of the form `key=value`.
    InvalidKey,
    /// A row or column count failed to parse as a decimal number.
    Int(IntParseError),
}

/// One `key=value` entry applied to the size read so far: `rows` and `cols`
/// set their field, any other key is ignored.
pub open spec fn spec_apply_size_entry(acc: Size, key: Seq<u8>, val: Seq<u8>) -> Result<
    Size,
    SizeParseError,
> {
    if key == spec_rows_key() {
        match spec_parse_usize(val) {
            Ok(v) => Ok(Size { rows: v, cols: acc.cols }),
            Err(e) => Err(SizeParseError::Int(e)),
        }
    } else if key == spec_cols_key() {
        match spec_parse_usize(val) {
            Ok(v) => Ok(Size { rows: acc.rows, cols: v }),
            Err(e) => Err(SizeParseError::Int(e)),
        }
    } else {
        Ok(acc)
    }
}

/// The comma-separated entries folded in order over the size read so far.
/// Each entry must split on `=` into exactly a key and a value, both trimmed
/// of ASCII whitespace.
pub open spec fn spec_fold_size(pieces: Seq<Seq<u8>>, acc: Size) -> Result<Size, SizeParseError>
    decreases pieces.len(),
{
    if pieces.len() == 0 {
        Ok(acc)
    } else {
        let kv = spec_split(pieces[0], 61);
        if kv.len() != 2 {
            Err(SizeParseError::InvalidKey)
        } else {
            match spec_apply_size_entry(acc, spec_trim(kv[0]), spec_trim(kv[1])) {
                Ok(a) => spec_fold_size(pieces.drop_first(), a),
                Err(e) => Err(e),
            }
        }
    }
}

/// Parsing a size string: split on commas into `key=value` entries, fold
/// them over the all-zero size.
pub open spec fn spec_parse_size(bytes: Seq<u8>) -> Result<Size, SizeParseError> {
    spec_fold_size(spec_split(bytes, 44), Size { rows: 0, cols: 0 })
}

/// The message reported for a rejected size string; number errors carry the
/// wording of the standard decimal parser.
pub open spec fn spec_size_error_message(e: SizeParseError) -> Seq<char> {
    match e {
        SizeParseError::InvalidKey => "invalid size key"@,
        SizeParseError::Int(IntParseError::Empty) => "cannot parse integer from empty string"@,
        SizeParseError::Int(IntParseError::InvalidDigit) => "invalid digit found in string"@,
        SizeParseError::Int(IntParseError::Overflow) => "number too large to fit in target type"@,
    }
}

/// Recognizes the `rows` key.
fn is_rows_key(k: &[u8]) -> (r: bool)
    ensures
        r == (k@ == spec_rows_key()),
{
    let r = k.len() == 4 && k[0] == 114 && k[1] == 111 && k[2] == 119 && k[3] == 115;
    proof {
        if r {
            assert(k@ =~= spec_rows_key());
        } else {
            assert(k@ != spec_rows_key());
        }
    }
    r
}

/// Recognizes the `cols` key.
fn is_cols_key(k: &[u8]) -> (r: bool)
    ensures
        r == (k@ == spec_cols_key()),
{
    let r = k.len() == 4 && k[0] == 99 && k[1] == 111 && k[2] == 108 && k[3] == 115;
    proof {
        if r {
            assert(k@ =~= spec_cols_key());
        } else {
            assert(k@ != spec_cols_key());
        }
    }
    r
}

impl Size {
    /// Parses a size written as comma-separated `key=value` entries, where
    /// the keys `rows` and `cols` set the respective counts, later entries
    /// win, and unknown keys are ignored; an entry without exactly one `=`
    /// or with an unparsable number is rejected with a message.
    pub fn from_str(s: &str) -> (r: Result<Size, String>)
        ensures
            match spec_parse_size(s.spec_bytes()) {
                Ok(size) => r == Ok::<Size, String>(size),
                Err(e) => r matches Err(m) && m@ == spec_size_error_message(e),
            },
    {
        let bytes = s.as_bytes();
        let pieces = split_bytes(bytes, 44);
        let ghost all = spec_split(bytes@, 44);
        let mut size = Size { rows: 0, cols: 0 };
        let mut i: usize = 0;
        proof {
            assert(all.skip(0) =~= all);
        }
        while i < pieces.len()
            invariant
                i <= pieces@.len(),
                all == spec_split(s.spec_bytes(), 44),
                pieces@.len() == all.len(),
                forall|k: int| 0 <= k < all.len() ==> pieces@[k]@ == all[k],
                spec_fold_size(all, Size { rows: 0, cols: 0 }) == spec_fold_size(
                    all.skip(i as int),
                    size,
                ),
            decreases pieces@.len() - i,
        {
            let ghost rest = all.skip(i as int);
            proof {
                assert(rest[0] == all[i as int]);
                assert(rest.drop_first() =~= all.skip(i + 1));
            }
            let kv = split_bytes(pieces[i].as_slice(), 61);
            if kv.len() != 2 {
                return Err(size_error_message(SizeParseError::InvalidKey));
            }
            let key = trim_bytes(kv[0].as_slice());
            let val = trim_bytes(kv[1].as_slice());
            if is_rows_key(key.as_slice()) {
                match parse_usize(val.as_slice()) {
                    Ok(v) => {
                        size = Size { rows: v, cols: size.cols };
                    },
                    Err(e) => {
                        return Err(size_error_message(SizeParseError::Int(e)));
                    },
                }
            } else if is_cols_key(key.as_slice()) {
                match parse_usize(val.as_slice()) {
                    Ok(v) => {
                        size = Size { rows: size.rows, cols: v };
                    },
                    Err(e) => {
                        return Err(size_error_message(SizeParseError::Int(e)));
                    },
                }
            }
            i += 1;
        }
        proof {
            assert(all.skip(all.len() as int) =~= Seq::<Seq<u8>>::empty());
        }
        Ok(size)
    }
}

/// The user-visible message for a rejected size string.
fn size_error_message(e: SizeParseError) -> (m: String)
    ensures
        m@ == spec_size_error_message(e),
{
    match e {
        SizeParseError::InvalidKey => "invalid size key".to_owned(),
        SizeParseError::Int(IntParseError::Empty) => "cannot parse integer from empty string".to_owned(),
        SizeParseError::Int(IntParseError::InvalidDigit) => "invalid digit found in string".to_owned(),
        SizeParseError::Int(IntParseError::Overflow) => "number too large to fit in target type".to_owned(),
    }
}

} // verus!
