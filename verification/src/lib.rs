//! Translates between the JSON wire format of the ACVP validation protocol
//! and typed in-memory test cases, and re-serializes computed results into
//! the response shape the validation server expects. The three-level
//! container hierarchy (request, test group, test) is generic over the four
//! family codecs: secure hash, MAC/AEAD, block cipher, and DRBG. No
//! cryptographic primitive runs here: a crypto engine consumes the decoded
//! byte buffers and supplies the results.

use vstd::prelude::*;

pub mod blkcipher;
pub mod drbg;
pub mod hash;
pub mod hexcodec;
pub mod jsontext;
pub mod msgauth;
pub mod jsonval;
pub mod parser;
pub mod strutil;
pub mod util;

verus! {

/// Stable error code carried by every failure: mirrors the POSIX `EINVAL`
/// value, negated at each error site.
pub const EINVAL: i32 = 22;

/// Every fallible operation of this crate reports an `AcvpError`: a stable
/// negative numeric code plus a human-readable message.
#[derive(Debug)]
pub struct AcvpError {
    pub code: i32,
    pub message: String,
}

pub type AcvpResult<T> = Result<T, AcvpError>;

impl Clone for AcvpError {
    fn clone(&self) -> (r: Self)
        ensures
            r == *self,
    {
        AcvpError { code: self.code, message: self.message.clone() }
    }
}

impl AcvpError {
    /// Renders the error as `message (code)`, the crate's display form.
    pub fn describe(&self) -> (r: String)
        ensures
            r@ == self.message@ + " ("@ + crate::strutil::dec_str_signed(self.code as int)
                + ")"@,
    {
        let mut s = self.message.clone();
        s.append(" (");
        crate::strutil::dec_i64_into(self.code as i64, &mut s);
        s.append(")");
        proof {
            assert(s@ =~= self.message@ + " ("@ + crate::strutil::dec_str_signed(self.code as int)
                + ")"@);
        }
        s
    }
}

} // verus!
