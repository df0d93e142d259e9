use vstd::prelude::*;
use vstd::string::*;

verus! {

/// A push notification about one finished recording.
pub struct Notification {
    /// Plain-text message body.
    pub body: String,
    /// Whether it reports a failed transcription.
    pub is_error: bool,
}

/// The message sent when transcribing the file `file_name` failed with `error`.
pub open spec fn failure_text(file_name: Seq<char>, error: Seq<char>) -> Seq<char> {
    "Recording saved: "@ + file_name + "\nError: "@ + error
}

/// The headers of a notification request: plain text, and for a failure
/// a title and a priority as well.
pub open spec fn headers_of(is_error: bool) -> Seq<(Seq<char>, Seq<char>)> {
    let plain = seq![("Content-Type"@, "text/plain"@)];
    if is_error {
        plain + seq![("X-Title"@, "Transcription Failed"@), ("X-Priority"@, "3"@)]
    } else {
        plain
    }
}

/// The notification for the outcome of transcribing the file `file_name`:
/// the transcript itself, or a failure notice naming the file and the error.
pub fn notification_for(outcome: Result<String, String>, file_name: &str) -> (r: Notification)
    ensures
        match outcome {
            Ok(text) => r.body@ == text@ && !r.is_error,
            Err(e) => r.body@ == failure_text(file_name@, e@) && r.is_error,
        },
{
    match outcome {
        Ok(text) => Notification { body: text, is_error: false },
        Err(e) => {
            let mut body = String::from_str("Recording saved: ");
            body.append(file_name);
            body.append("\nError: ");
            body.append(e.as_str());
            Notification { body, is_error: true }
        },
    }
}

fn header(name: &str, value: &str) -> (r: (String, String))
    ensures
        r.0@ == name@,
        r.1@ == value@,
{
    (String::from_str(name), String::from_str(value))
}

impl Notification {
    /// The request headers to send this notification with, in order.
    pub fn headers(&self) -> (r: Vec<(String, String)>)
        ensures
            r@.len() == headers_of(self.is_error).len(),
            forall|i: int|
                0 <= i < r@.len() ==> (#[trigger] r@[i]).0@ == headers_of(self.is_error)[i].0
                    && r@[i].1@ == headers_of(self.is_error)[i].1,
    {
        let mut r: Vec<(String, String)> = Vec::new();
        r.push(header("Content-Type", "text/plain"));
        if self.is_error {
            r.push(header("X-Title", "Transcription Failed"));
            r.push(header("X-Priority", "3"));
        }
        r
    }
}

} // verus!
