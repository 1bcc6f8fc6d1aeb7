//! Submission of extracted reports, and what the server's answer means.

use vstd::prelude::*;

verus! {

/// The message of a failed request: the reply's `msg`, else its `message`,
/// else the fallback.
pub open spec fn failure_text(
    msg: Option<Seq<char>>,
    message: Option<Seq<char>>,
    fallback: Seq<char>,
) -> Seq<char> {
    match msg {
        Some(m) => m,
        None => match message {
            Some(m) => m,
            None => fallback,
        },
    }
}

/// The message of a failed request: the reply's `msg`, else its `message`,
/// else the fallback.
pub fn error_message(msg: Option<String>, message: Option<String>, fallback: String) -> (r:
    String)
    ensures
        r@ == failure_text(crate::auth::text_of(msg), crate::auth::text_of(message), fallback@),
{
    match msg {
        Some(m) => m,
        None => match message {
            Some(m) => m,
            None => fallback,
        },
    }
}

/// What an upload reply means: success when its `code` is 1; otherwise the
/// error message, with `上传失败` as the fallback. An absent code counts as 0.
pub fn upload_outcome(code: Option<i64>, msg: Option<String>, message: Option<String>) -> (r:
    Result<(), String>)
    ensures
        r is Ok <==> code == Some(1i64),
        r matches Err(e) ==> e@ == failure_text(
            crate::auth::text_of(msg),
            crate::auth::text_of(message),
            "上传失败"@,
        ),
{
    let code = match code {
        Some(c) => c,
        None => 0,
    };
    if code == 1 {
        Ok(())
    } else {
        Err(error_message(msg, message, "上传失败".to_string()))
    }
}

/// Submission of reports for the logged-in user.
pub struct UploadService {
    api_base_url: String,
    token: String,
}

impl UploadService {
    pub fn new(api_base_url: String, token: String) -> (r: Self)
        ensures
            r.base_url() == api_base_url@,
            r.session_token() == token@,
    {
        UploadService { api_base_url, token }
    }

    /// The server's base address.
    pub closed spec fn base_url(&self) -> Seq<char> {
        self.api_base_url@
    }

    /// The access token sent with each request.
    pub closed spec fn session_token(&self) -> Seq<char> {
        self.token@
    }

    /// The address that batches of reports are posted to.
    pub fn batch_import_url(&self) -> (r: String)
        ensures
            r@ == self.base_url() + "/api/v1/daily-reports/batch-import"@,
    {
        self.api_base_url.clone().concat("/api/v1/daily-reports/batch-import")
    }

    /// The access token sent with each request.
    pub fn token(&self) -> (r: &str)
        ensures
            r@ == self.session_token(),
    {
        self.token.as_str()
    }
}

} // verus!
