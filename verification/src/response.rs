use vstd::prelude::*;

verus! {

/// The unified API envelope: `{code, msg, data}`, with code 0 on success.
pub struct ApiResponse<T> {
    pub code: i32,
    pub msg: String,
    pub data: Option<T>,
}

impl<T> ApiResponse<T> {
    /// A success envelope around `data`: code 0, empty message.
    pub fn success(data: T) -> (r: ApiResponse<T>)
        ensures
            r.code == 0,
            r.msg@.len() == 0,
            r.data == Some(data),
    {
        ApiResponse { code: 0, msg: String::new(), data: Some(data) }
    }
}

impl ApiResponse<()> {
    /// A success envelope with no data: code 0, empty message.
    pub fn success_empty() -> (r: ApiResponse<()>)
        ensures
            r.code == 0,
            r.msg@.len() == 0,
            r.data is None,
    {
        ApiResponse { code: 0, msg: String::new(), data: None }
    }

    /// An error envelope: the given code and message, no data.
    pub fn error(code: i32, msg: String) -> (r: ApiResponse<()>)
        ensures
            r.code == code,
            r.msg == msg,
            r.data is None,
    {
        ApiResponse { code, msg, data: None }
    }
}

} // verus!
