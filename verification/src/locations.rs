use vstd::prelude::*;
use vstd::string::*;
use crate::cache::{canonical_uuid_text, capture_id};
use crate::model::text_result;
use crate::text::{joined, text_eq};

verus! {

/// What `url::Url::parse` gives for a text: the parser's error message, or the
/// URL's scheme, its serialization, and the local file path that
/// `Url::to_file_path` gives for it (none when the URL names no local file),
/// as the path's bytes and, when it is valid UTF-8, its text.
pub uninterp spec fn parsed_uri(uri: Seq<char>) -> Result<(Seq<char>, Seq<char>, Option<(Seq<u8>, Option<Seq<char>>)>), Seq<char>>;

/// A parsed URI, as the parser's outcome is handed around.
pub type ParsedUri = Result<(String, String, Option<(Vec<u8>, Option<String>)>), String>;

/// A parsed URI as values.
pub open spec fn parsed_view(parsed: ParsedUri) -> Result<(Seq<char>, Seq<char>, Option<(Seq<u8>, Option<Seq<char>>)>), Seq<char>> {
    match parsed {
        Ok((scheme, text, path)) => Ok((
            scheme@,
            text@,
            match path {
                Some((bytes, Some(t))) => Some((bytes@, Some(t@))),
                Some((bytes, None)) => Some((bytes@, None)),
                None => None,
            },
        )),
        Err(e) => Err(e@),
    }
}

/// Calls `url::Url::parse`, and on the URL `scheme`, `to_string` and
/// `to_file_path` (with `OsStr::as_encoded_bytes`, the path's bytes on Unix,
/// and `Path::to_str`). Trusted: the outcome is `parsed_uri`
/// of the text. What the parser accepts and how it normalizes is not stated.
#[verifier::external_body]
fn parse_uri(uri: &str) -> (parsed: ParsedUri)
    ensures
        parsed_view(parsed) == parsed_uri(uri@),
{
    match url::Url::parse(uri) {
        Ok(url) => Ok((
            url.scheme().to_owned(),
            url.to_string(),
            url.to_file_path().ok().map(|path| {
                (path.as_os_str().as_encoded_bytes().to_vec(), path.to_str().map(str::to_owned))
            }),
        )),
        Err(error) => Err(error.to_string()),
    }
}

/// The file that a screenshot portal's reply names, as the bytes of its path:
/// it must be a `file:` URI of a local path.
pub open spec fn screenshot_path_of(
    parsed: Result<(Seq<char>, Seq<char>, Option<(Seq<u8>, Option<Seq<char>>)>), Seq<char>>,
) -> Result<Seq<u8>, Seq<char>> {
    match parsed {
        Err(e) => Err("invalid screenshot URI: "@ + e),
        Ok((scheme, text, path)) => if scheme != "file"@ {
            Err("unsupported screenshot URI: "@ + text)
        } else {
            match path {
                Some((bytes, _)) => Ok(bytes),
                None => Err("invalid screenshot file URI: "@ + text),
            }
        },
    }
}

/// A path's bytes, or a message, as values.
pub open spec fn bytes_result(r: Result<Vec<u8>, String>) -> Result<Seq<u8>, Seq<char>> {
    match r {
        Ok(bytes) => Ok(bytes@),
        Err(e) => Err(e@),
    }
}

/// The screenshot's file, from the parsed URI of the portal's reply.
pub fn screenshot_path_from(parsed: ParsedUri) -> (path: Result<Vec<u8>, String>)
    ensures
        bytes_result(path) == screenshot_path_of(parsed_view(parsed)),
{
    match parsed {
        Err(error) => Err(joined("invalid screenshot URI: ", error.as_str())),
        Ok((scheme, text, path)) => {
            if !text_eq(scheme.as_str(), "file") {
                return Err(joined("unsupported screenshot URI: ", text.as_str()));
            }
            match path {
                Some((bytes, _)) => Ok(bytes),
                None => Err(joined("invalid screenshot file URI: ", text.as_str())),
            }
        },
    }
}

/// The screenshot's file, from the URI of the portal's reply.
pub fn screenshot_path(uri: &str) -> (path: Result<Vec<u8>, String>)
    ensures
        bytes_result(path) == screenshot_path_of(parsed_uri(uri@)),
{
    screenshot_path_from(parse_uri(uri))
}

/// An optional file, as the bytes of its path, or a message, as values.
pub open spec fn file_target_view(t: Result<Option<Vec<u8>>, String>) -> Result<Option<Seq<u8>>, Seq<char>> {
    match t {
        Ok(Some(p)) => Ok(Some(p@)),
        Ok(None) => Ok(None),
        Err(e) => Err(e@),
    }
}

/// An optional target, or a message, as values.
pub open spec fn target_view(t: Result<Option<String>, String>) -> Result<Option<Seq<char>>, Seq<char>> {
    match t {
        Ok(Some(p)) => Ok(Some(p@)),
        Ok(None) => Ok(None),
        Err(e) => Err(e@),
    }
}

/// Where to save, given whether the user cancelled the file chooser and the
/// parsed first URI it returned, if any: nowhere when cancelled, else the
/// chosen file, which must be local, as the bytes of its path.
pub open spec fn save_target_of(
    cancelled: bool,
    first: Option<Result<(Seq<char>, Seq<char>, Option<(Seq<u8>, Option<Seq<char>>)>), Seq<char>>>,
) -> Result<Option<Seq<u8>>, Seq<char>> {
    if cancelled {
        Ok(None)
    } else {
        match first {
            None => Err("No file selected"@),
            Some(Ok((_, _, Some((bytes, _))))) => Ok(Some(bytes)),
            Some(_) => Err("Choose a local file"@),
        }
    }
}

/// The parsed first URI, when there is one.
pub open spec fn first_parsed(uris: Seq<String>) -> Option<Result<(Seq<char>, Seq<char>, Option<(Seq<u8>, Option<Seq<char>>)>), Seq<char>>> {
    if uris.len() == 0 {
        None
    } else {
        Some(parsed_uri(uris[0]@))
    }
}

/// Where to save, from the file chooser's answer and its parsed first URI.
pub fn save_target_from(cancelled: bool, first: Option<ParsedUri>) -> (t: Result<Option<Vec<u8>>, String>)
    ensures
        file_target_view(t) == save_target_of(
            cancelled,
            match first {
                Some(p) => Some(parsed_view(p)),
                None => None,
            },
        ),
{
    if cancelled {
        return Ok(None);
    }
    match first {
        None => Err(String::from_str("No file selected")),
        Some(Ok((_, _, Some((bytes, _))))) => Ok(Some(bytes)),
        Some(_) => Err(String::from_str("Choose a local file")),
    }
}

/// Where to save, from the file chooser's answer: whether it was cancelled, and the URIs it chose.
pub fn save_target(cancelled: bool, uris: Vec<String>) -> (t: Result<Option<Vec<u8>>, String>)
    ensures
        file_target_view(t) == save_target_of(cancelled, first_parsed(uris@)),
{
    if cancelled || uris.len() == 0 {
        return save_target_from(cancelled, None);
    }
    save_target_from(cancelled, Some(parse_uri(uris[0].as_str())))
}

/// The folder for automatic saving, given whether the user cancelled the
/// folder chooser and the parsed first URI it returned, if any.
pub open spec fn folder_target_of(
    cancelled: bool,
    first: Option<Result<(Seq<char>, Seq<char>, Option<(Seq<u8>, Option<Seq<char>>)>), Seq<char>>>,
) -> Result<Option<Seq<char>>, Seq<char>> {
    if cancelled {
        Ok(None)
    } else {
        match first {
            None => Err("No folder selected"@),
            Some(Ok((_, _, Some((_, Some(p)))))) => Ok(Some(p)),
            Some(Ok((_, _, Some((_, None))))) => Err("Folder path is not valid UTF-8"@),
            Some(_) => Err("Choose a local folder"@),
        }
    }
}

/// The folder for automatic saving, from the folder chooser's answer and its parsed first URI.
pub fn folder_target_from(cancelled: bool, first: Option<ParsedUri>) -> (t: Result<Option<String>, String>)
    ensures
        target_view(t) == folder_target_of(
            cancelled,
            match first {
                Some(p) => Some(parsed_view(p)),
                None => None,
            },
        ),
{
    if cancelled {
        return Ok(None);
    }
    match first {
        None => Err(String::from_str("No folder selected")),
        Some(Ok((_, _, Some((_, Some(p)))))) => Ok(Some(p)),
        Some(Ok((_, _, Some((_, None))))) => Err(String::from_str("Folder path is not valid UTF-8")),
        Some(_) => Err(String::from_str("Choose a local folder")),
    }
}

/// The folder for automatic saving, from the folder chooser's answer: whether
/// it was cancelled, and the URIs it chose.
pub fn folder_target(cancelled: bool, uris: Vec<String>) -> (t: Result<Option<String>, String>)
    ensures
        target_view(t) == folder_target_of(cancelled, first_parsed(uris@)),
{
    if cancelled || uris.len() == 0 {
        return folder_target_from(cancelled, None);
    }
    folder_target_from(cancelled, Some(parse_uri(uris[0].as_str())))
}

/// What a Save As reports: cancelled, saved at a path, or why writing failed.
pub open spec fn save_report_of(saved: Option<(Seq<char>, Result<(), Seq<char>>)>) -> Result<Seq<char>, Seq<char>> {
    match saved {
        None => Ok("Save cancelled"@),
        Some((path, Ok(()))) => Ok("Saved to "@ + path),
        Some((_, Err(e))) => Err("Could not save screenshot: "@ + e),
    }
}

/// The report of a Save As, given the chosen path and the outcome of writing
/// there, or nothing when the user cancelled.
pub fn save_report(saved: Option<(String, Result<(), String>)>) -> (report: Result<String, String>)
    ensures
        text_result(report) == save_report_of(
            match saved {
                Some((path, Ok(()))) => Some((path@, Ok(()))),
                Some((path, Err(e))) => Some((path@, Err(e@))),
                None => None,
            },
        ),
{
    match saved {
        None => Ok(String::from_str("Save cancelled")),
        Some((path, Ok(()))) => Ok(joined("Saved to ", path.as_str())),
        Some((_, Err(error))) => Err(joined("Could not save screenshot: ", error.as_str())),
    }
}

/// The decimal digit of a value below 10.
pub open spec fn decimal_digit(d: int) -> char {
    (d + 48) as char
}

/// The decimal text of a number, without leading zeros.
pub open spec fn decimal_text(n: nat) -> Seq<char>
    decreases n,
{
    if n < 10 {
        seq![decimal_digit(n as int)]
    } else {
        decimal_text(n / 10).push(decimal_digit((n % 10) as int))
    }
}

/// The decimal text of a number.
pub fn decimal(n: u64) -> (text: String)
    ensures
        text@ == decimal_text(n as nat),
    decreases n,
{
    let d = (n % 10) as usize;
    proof {
        reveal_strlit("0123456789");
    }
    let digit = "0123456789".substring_char(d, d + 1);
    assert(digit@ =~= seq![decimal_digit(d as int)]);
    if n < 10 {
        return String::from_str(digit);
    }
    let mut text = decimal(n / 10);
    text.append(digit);
    text
}

/// The message when the folder for automatic saving is not an absolute path.
pub open spec fn relative_folder_message() -> Seq<char> {
    "Choose an absolute save location in Settings"@
}

/// The file name of an automatically saved screenshot, taken `secs` seconds
/// after the epoch, with a random UUID of 128-bit value `value`; refused when
/// the folder is not absolute.
pub open spec fn auto_save_name_of(absolute: bool, secs: u64, value: u128) -> Result<Seq<char>, Seq<char>> {
    if !absolute {
        Err(relative_folder_message())
    } else {
        Ok("Screenshot-"@ + decimal_text(secs as nat) + "-"@ + canonical_uuid_text(value) + ".png"@)
    }
}

/// The file name for an automatic save, given whether the folder is an
/// absolute path, the time in seconds since the epoch and a random UUID value.
pub fn auto_save_name(absolute: bool, secs: u64, value: u128) -> (name: Result<String, String>)
    ensures
        text_result(name) == auto_save_name_of(absolute, secs, value),
{
    if !absolute {
        return Err(String::from_str("Choose an absolute save location in Settings"));
    }
    let stamp = joined("Screenshot-", decimal(secs).as_str());
    let with_id = joined(joined(stamp.as_str(), "-").as_str(), capture_id(value).as_str());
    Ok(joined(with_id.as_str(), ".png"))
}

} // verus!
