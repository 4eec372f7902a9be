//! What the repository fetcher computes: which entries of a tree listing are
//! files, where the two requests go, and how a content answer becomes text.

use vstd::prelude::*;
use vstd::string::*;
use vstd::utf8::*;

verus! {

/// One entry of a repository tree listing.
#[derive(Debug)]
pub struct GitTreeItem {
    pub path: String,
    /// `"blob"` for a file, `"tree"` for a directory.
    pub item_type: String,
}

/// The body of a content answer.
#[derive(Debug)]
pub struct FileContent {
    pub content: String,
    pub encoding: String,
}

/// What came back for one request to the hosting provider.
#[derive(Debug)]
pub enum Reply<T> {
    /// No answer arrived.
    Unreachable,
    /// An answer with this status; `body` is its payload if it could be read
    /// in the expected shape.
    Answer { status: u16, body: Option<T> },
}

/// Why a fetch gave nothing.
#[derive(Clone, Copy, Debug, PartialEq, Eq, Structural)]
pub enum FetchError {
    /// No answer, or an answer outside the 2xx range.
    TransportError,
    /// The answer did not have the expected shape.
    ProtocolError,
    /// The content is in a transfer encoding other than base64.
    UnsupportedEncoding,
    /// The content is not base64.
    DecodeError,
    /// The decoded bytes are not UTF-8.
    EncodingError,
}

/// What a request to the hosting provider carries.
#[derive(Debug)]
pub struct Request {
    pub url: String,
    pub authorization: String,
    pub accept: String,
    pub user_agent: String,
}

/// The address of the recursive tree listing of the main branch of `repo`.
pub open spec fn tree_url_of(repo: Seq<char>) -> Seq<char> {
    "https://api.github.com/repos/"@ + repo + "/git/trees/main?recursive=1"@
}

/// The address of the content of the file at `path` in `repo`.
pub open spec fn content_url_of(repo: Seq<char>, path: Seq<char>) -> Seq<char> {
    "https://api.github.com/repos/"@ + repo + "/contents/"@ + path
}

/// A status in the 2xx range.
pub open spec fn is_success(status: u16) -> bool {
    200 <= status < 300
}

/// The file entries of a listing: every entry of kind `"blob"`, in order.
pub open spec fn files_of(entries: Seq<GitTreeItem>) -> Seq<GitTreeItem> {
    entries.filter(|e: GitTreeItem| e.is_file())
}

/// The bytes of `bytes` that are not a line feed, in order.
pub open spec fn without_newlines(bytes: Seq<u8>) -> Seq<u8> {
    bytes.filter(|b: u8| b != 10u8)
}

/// The text that decoded content stands for: the bytes read as UTF-8, where
/// there are bytes and they are UTF-8.
pub open spec fn text_of(decoded: Option<Seq<u8>>) -> Result<Seq<char>, FetchError> {
    match decoded {
        None => Err(FetchError::DecodeError),
        Some(bytes) => if valid_utf8(bytes) {
            Ok(decode_utf8(bytes))
        } else {
            Err(FetchError::EncodingError)
        },
    }
}

/// What a content body yields: its encoding must be base64, and its content,
/// line feeds removed, must decode to UTF-8 text.
pub open spec fn content_text(encoding: Seq<char>, content: Seq<char>) -> Result<
    Seq<char>,
    FetchError,
> {
    if encoding != "base64"@ {
        Err(FetchError::UnsupportedEncoding)
    } else {
        text_of(base64_decoded(without_newlines(encode_utf8(content))))
    }
}

/// What a reply yields once its payload is interpreted by `read`.
pub open spec fn reply_outcome<T, U>(
    reply: Reply<T>,
    read: spec_fn(T) -> Result<U, FetchError>,
) -> Result<U, FetchError> {
    match reply {
        Reply::Unreachable => Err(FetchError::TransportError),
        Reply::Answer { status, body } => if !is_success(status) {
            Err(FetchError::TransportError)
        } else {
            match body {
                None => Err(FetchError::ProtocolError),
                Some(b) => read(b),
            }
        },
    }
}

/// The bytes that standard base64 text stands for, if it is well formed.
pub uninterp spec fn base64_decoded(input: Seq<u8>) -> Option<Seq<u8>>;

/// `base64::DecodeError`, why a decoding failed. Nothing is read from it.
#[verifier::external_type_specification]
#[verifier::external_body]
pub struct ExDecodeError(base64::DecodeError);

/// `std::string::FromUtf8Error`, what `String::from_utf8` gives for bytes
/// that are not UTF-8. Nothing is read from it.
#[verifier::external_type_specification]
#[verifier::external_body]
pub struct ExFromUtf8Error(std::string::FromUtf8Error);

/// `base64::decode`: decodes with the standard alphabet and canonical
/// padding. The outcome depends on the input bytes alone; `base64_decoded`
/// names it.
#[verifier::external_body]
#[allow(deprecated)]
fn base64_decode(input: &Vec<u8>) -> (r: Result<Vec<u8>, base64::DecodeError>)
    ensures
        match r {
            Ok(bytes) => base64_decoded(input@) == Some(bytes@),
            Err(_) => base64_decoded(input@) is None,
        },
{
    base64::decode(input)
}

/// `String::from_utf8`: succeeds exactly on valid UTF-8, and then holds the
/// characters that the bytes encode.
pub assume_specification[ String::from_utf8 ](vec: Vec<u8>) -> (r: Result<
    String,
    std::string::FromUtf8Error,
>)
    ensures
        match r {
            Ok(s) => valid_utf8(vec@) && s@ == decode_utf8(vec@),
            Err(_) => !valid_utf8(vec@),
        },
;

impl GitTreeItem {
    /// Whether the entry is a file.
    pub open spec fn is_file(&self) -> bool {
        self.item_type@ == "blob"@
    }

    /// Whether the entry is a file.
    pub fn is_blob(&self) -> (b: bool)
        ensures
            b == self.is_file(),
    {
        let blob = String::from_str("blob");
        self.item_type == blob
    }
}

impl Clone for GitTreeItem {
    fn clone(&self) -> (r: Self)
        ensures
            r == *self,
    {
        GitTreeItem { path: self.path.clone(), item_type: self.item_type.clone() }
    }
}

/// A request to `url` that authenticates with `token` as a bearer and asks
/// for the provider's JSON.
fn request_to(url: String, token: &str) -> (r: Request)
    ensures
        r.url@ == url@,
        r.authorization@ == "Bearer "@ + token@,
        r.accept@ == "application/vnd.github+json"@,
        r.user_agent@ == "helix-codebase-indexer"@,
{
    let mut authorization = String::from_str("Bearer ");
    authorization.append(token);
    Request {
        url,
        authorization,
        accept: String::from_str("application/vnd.github+json"),
        user_agent: String::from_str("helix-codebase-indexer"),
    }
}

/// The request for the recursive tree listing of the main branch of `repo`.
pub fn tree_request(repo: &str, token: &str) -> (r: Request)
    ensures
        r.url@ == tree_url_of(repo@),
        r.authorization@ == "Bearer "@ + token@,
        r.accept@ == "application/vnd.github+json"@,
        r.user_agent@ == "helix-codebase-indexer"@,
{
    let mut url = String::from_str("https://api.github.com/repos/");
    url.append(repo);
    url.append("/git/trees/main?recursive=1");
    request_to(url, token)
}

/// The request for the content of the file at `path` in `repo`.
pub fn content_request(repo: &str, path: &str, token: &str) -> (r: Request)
    ensures
        r.url@ == content_url_of(repo@, path@),
        r.authorization@ == "Bearer "@ + token@,
        r.accept@ == "application/vnd.github+json"@,
        r.user_agent@ == "helix-codebase-indexer"@,
{
    let mut url = String::from_str("https://api.github.com/repos/");
    url.append(repo);
    url.append("/contents/");
    url.append(path);
    request_to(url, token)
}

/// Keeps the files of a tree listing, in the order in which they were listed.
pub fn list_files(entries: &Vec<GitTreeItem>) -> (files: Vec<GitTreeItem>)
    ensures
        files@ == files_of(entries@),
{
    let mut files: Vec<GitTreeItem> = Vec::new();
    let mut i: usize = 0;
    while i < entries.len()
        invariant
            i <= entries.len(),
            files@ == files_of(entries@.take(i as int)),
        decreases entries.len() - i,
    {
        proof {
            entries@.lemma_take_succ_push(i as int);
            entries@.take(i as int).lemma_filter_push(
                entries@[i as int],
                |e: GitTreeItem| e.is_file(),
            );
        }
        if entries[i].is_blob() {
            files.push(entries[i].clone());
        }
        i += 1;
    }
    proof {
        entries@.lemma_take_len();
    }
    files
}

/// The files of a repository, from the reply to the tree request: a reply that
/// is missing or outside 2xx is a `TransportError`, one without a readable
/// tree a `ProtocolError`, and any other gives the listed files.
pub fn fetch_repo_files(reply: Reply<Vec<GitTreeItem>>) -> (r: Result<
    Vec<GitTreeItem>,
    FetchError,
>)
    ensures
        match r {
            Ok(files) => reply_outcome(
                reply,
                |t: Vec<GitTreeItem>| Ok::<Seq<GitTreeItem>, FetchError>(files_of(t@)),
            ) == Ok::<Seq<GitTreeItem>, FetchError>(files@),
            Err(e) => reply_outcome(
                reply,
                |t: Vec<GitTreeItem>| Ok::<Seq<GitTreeItem>, FetchError>(files_of(t@)),
            ) == Err::<Seq<GitTreeItem>, FetchError>(e),
        },
{
    match reply {
        Reply::Unreachable => Err(FetchError::TransportError),
        Reply::Answer { status, body } => {
            if status < 200 || status >= 300 {
                return Err(FetchError::TransportError);
            }
            match body {
                None => Err(FetchError::ProtocolError),
                Some(tree) => Ok(list_files(&tree)),
            }
        },
    }
}

/// Copies `bytes` without its line feeds.
pub fn strip_newlines(bytes: &[u8]) -> (out: Vec<u8>)
    ensures
        out@ == without_newlines(bytes@),
{
    let mut out: Vec<u8> = Vec::new();
    let mut i: usize = 0;
    while i < bytes.len()
        invariant
            i <= bytes.len(),
            out@ == without_newlines(bytes@.take(i as int)),
        decreases bytes.len() - i,
    {
        proof {
            bytes@.lemma_take_succ_push(i as int);
            bytes@.take(i as int).lemma_filter_push(bytes@[i as int], |b: u8| b != 10u8);
        }
        if bytes[i] != 10u8 {
            out.push(bytes[i]);
        }
        i += 1;
    }
    proof {
        bytes@.lemma_take_len();
    }
    out
}

/// Reads decoded content as text: a failed decoding is a `DecodeError`, bytes
/// that are not UTF-8 an `EncodingError`.
pub fn decoded_text(decoded: Result<Vec<u8>, base64::DecodeError>) -> (r: Result<
    String,
    FetchError,
>)
    ensures
        match r {
            Ok(text) => decoded is Ok && text_of(Some(decoded->Ok_0@)) == Ok::<
                Seq<char>,
                FetchError,
            >(text@),
            Err(e) => match decoded {
                Ok(bytes) => text_of(Some(bytes@)) == Err::<Seq<char>, FetchError>(e),
                Err(_) => e == FetchError::DecodeError,
            },
        },
{
    match decoded {
        Err(_) => Err(FetchError::DecodeError),
        Ok(bytes) => match String::from_utf8(bytes) {
            Ok(text) => Ok(text),
            Err(_) => Err(FetchError::EncodingError),
        },
    }
}

/// The text of a content body: `content_text` of its encoding and content.
pub fn read_content(body: &FileContent) -> (r: Result<String, FetchError>)
    ensures
        match r {
            Ok(text) => content_text(body.encoding@, body.content@) == Ok::<
                Seq<char>,
                FetchError,
            >(text@),
            Err(e) => content_text(body.encoding@, body.content@) == Err::<
                Seq<char>,
                FetchError,
            >(e),
        },
{
    let base64_name = String::from_str("base64");
    if !(body.encoding == base64_name) {
        return Err(FetchError::UnsupportedEncoding);
    }
    let stripped = strip_newlines(body.content.as_str().as_bytes());
    decoded_text(base64_decode(&stripped))
}

/// The text of a file, from the reply to the content request: a reply that is
/// missing or outside 2xx is a `TransportError`, one without a readable body a
/// `ProtocolError`, and any other gives what `content_text` says of the body.
pub fn fetch_file_content(reply: Reply<FileContent>) -> (r: Result<String, FetchError>)
    ensures
        match r {
            Ok(text) => reply_outcome(
                reply,
                |b: FileContent| content_text(b.encoding@, b.content@),
            ) == Ok::<Seq<char>, FetchError>(text@),
            Err(e) => reply_outcome(
                reply,
                |b: FileContent| content_text(b.encoding@, b.content@),
            ) == Err::<Seq<char>, FetchError>(e),
        },
{
    match reply {
        Reply::Unreachable => Err(FetchError::TransportError),
        Reply::Answer { status, body } => {
            if status < 200 || status >= 300 {
                return Err(FetchError::TransportError);
            }
            match body {
                None => Err(FetchError::ProtocolError),
                Some(b) => read_content(&b),
            }
        },
    }
}

} // verus!
