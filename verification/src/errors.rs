//! The failure taxonomy of the pipeline: transport failures, platform-reported
//! errors (a non-zero envelope code with its message), and the local file
//! failures that downloading can hit.

use vstd::prelude::*;
use vstd::string::StringExecFns;

verus! {

/// A platform-reported error: the non-zero code of a response envelope and
/// the message that came with it.
#[derive(Clone, Debug)]
pub struct BError {
    pub code: i64,
    pub msg: String,
}

impl BError {
    /// The error rendered as `"{code}:{message}"`.
    pub fn describe(&self) -> (r: String)
        ensures
            r@ == crate::numfmt::dec_signed_spec(self.code as int) + ":"@ + self.msg@,
    {
        let mut s = crate::numfmt::i64_to_string(self.code);
        s.append(":");
        s.append(self.msg.as_str());
        s
    }
}

/// Any failure of one unit of work: a transport failure carrying the
/// transport layer's description, or an error the platform reported.
#[derive(Clone, Debug)]
pub enum MyError {
    ReqError(String),
    BiliError(BError),
}

/// The platform's envelope code for a file that could not be created.
pub const CREATE_FAILED_CODE: i64 = -1;

/// The platform's envelope code for a file that could not be written.
pub const WRITE_FAILED_CODE: i64 = -2;

/// Decides a response envelope: a zero code passes, any other code becomes a
/// platform error carrying exactly that code and the envelope's message.
pub fn check_envelope(code: i64, message: String) -> (r: Result<(), MyError>)
    ensures
        r is Ok <==> code == 0,
        code != 0 ==> (r matches Err(MyError::BiliError(b)) && b.code == code && b.msg
            == message),
{
    if code != 0 {
        Err(MyError::BiliError(BError { code, msg: message }))
    } else {
        Ok(())
    }
}

/// The error reported when the output file could not be created.
pub fn file_create_error(detail: &str) -> (r: MyError)
    ensures
        r matches MyError::BiliError(b) && b.code == CREATE_FAILED_CODE && b.msg@ == "文件创建失败："@
            + detail@,
{
    let mut msg = String::from_str("文件创建失败：");
    msg.append(detail);
    MyError::BiliError(BError { code: CREATE_FAILED_CODE, msg })
}

/// The error reported when the output file could not be written.
pub fn file_write_error(detail: &str) -> (r: MyError)
    ensures
        r matches MyError::BiliError(b) && b.code == WRITE_FAILED_CODE && b.msg@ == "文件写入失败："@
            + detail@,
{
    let mut msg = String::from_str("文件写入失败：");
    msg.append(detail);
    MyError::BiliError(BError { code: WRITE_FAILED_CODE, msg })
}

} // verus!
