//! Pieces of the v1.1 API client: credentials for calls on behalf of a user,
//! media and user records, and the checks and arithmetic of its endpoints.

use vstd::prelude::*;
use crate::endpoints::common::EndpointRet;
use crate::objects::{ResponseBodyFail, ResponseBodyFailError, SigningSecrets};
use crate::text::{decimal, u64_to_decimal};
use crate::v2;

verus! {

#[verifier::external_type_specification]
#[verifier::external_body]
pub struct ExReqwestOauth1Error(reqwest_oauth1::Error);

/// The failure body of the v1.1 API.
pub type ResponseBodyErrJson = ResponseBodyFail;

/// One entry of a v1.1 failure body.
pub type ErrorErrorsItem = ResponseBodyFailError;

pub const UPLOAD_URL: &'static str = "https://upload.twitter.com/1.1/media/upload.json";

pub const SEGMENT_SIZE: usize = 5242880;

pub const SEGMENT_INDEX_MIN: usize = 0;

pub const SEGMENT_INDEX_MAX: usize = 999;

/// The four secrets of a call made on behalf of a user.
#[derive(Debug, Clone)]
#[non_exhaustive]
pub struct TokenSecrets {
    pub consumer_key: String,
    pub consumer_secret: String,
    pub oauth_token: String,
    pub oauth_token_secret: String,
}

impl TokenSecrets {
    pub fn new(consumer_key: &str, consumer_secret: &str, oauth_token: &str, oauth_token_secret: &str) -> (r:
        Self)
        ensures
            r.consumer_key@ == consumer_key@,
            r.consumer_secret@ == consumer_secret@,
            r.oauth_token@ == oauth_token@,
            r.oauth_token_secret@ == oauth_token_secret@,
    {
        TokenSecrets {
            consumer_key: consumer_key.to_owned(),
            consumer_secret: consumer_secret.to_owned(),
            oauth_token: oauth_token.to_owned(),
            oauth_token_secret: oauth_token_secret.to_owned(),
        }
    }

    /// Signing material with the user's token.
    pub fn secrets(&self) -> (r: SigningSecrets)
        ensures
            r.spec_parts() == (
                self.consumer_key@,
                self.consumer_secret@,
                Some((self.oauth_token@, self.oauth_token_secret@)),
            ),
    {
        SigningSecrets {
            consumer_key: self.consumer_key.clone(),
            consumer_secret: self.consumer_secret.clone(),
            token: Some((self.oauth_token.clone(), self.oauth_token_secret.clone())),
        }
    }
}

/// Why a v1.1 call failed before the provider answered it in a known way.
#[derive(Debug)]
pub enum EndpointError {
    ValidateFailed(String),
    RespondFailed(reqwest_oauth1::Error),
    ReadResponseBodyFailed(reqwest::Error),
    DeResponseBodyOkJsonFailed(serde_json::Error),
    DeV2ResponseBodyOkJsonFailed(serde_json::Error),
    ConvertV2ResponseBodyOkJsonFailed(String),
}

/// What an upload is for.
#[derive(Debug, Clone, PartialEq, Eq)]
pub enum MediaCategory {
    TweetImage,
    TweetVideo,
    TweetGif,
    DmImage,
    DmVideo,
    DmGif,
    Subtitles,
    Other(String),
}

/// The name of a category on the wire.
pub open spec fn category_name(c: MediaCategory) -> Seq<char> {
    match c {
        MediaCategory::TweetImage => "tweet_image"@,
        MediaCategory::TweetVideo => "tweet_video"@,
        MediaCategory::TweetGif => "tweet_gif"@,
        MediaCategory::DmImage => "dm_image"@,
        MediaCategory::DmVideo => "dm_video"@,
        MediaCategory::DmGif => "dm_gif"@,
        MediaCategory::Subtitles => "subtitles"@,
        MediaCategory::Other(s) => s@,
    }
}

/// The names of the known categories.
pub open spec fn is_known_category_name(name: Seq<char>) -> bool {
    name == "tweet_image"@ || name == "tweet_video"@ || name == "tweet_gif"@ || name == "dm_image"@
        || name == "dm_video"@ || name == "dm_gif"@ || name == "subtitles"@
}

impl MediaCategory {
    /// The name of the category on the wire.
    pub fn to_string(&self) -> (r: String)
        ensures
            r@ == category_name(*self),
    {
        match self {
            MediaCategory::TweetImage => String::from_str("tweet_image"),
            MediaCategory::TweetVideo => String::from_str("tweet_video"),
            MediaCategory::TweetGif => String::from_str("tweet_gif"),
            MediaCategory::DmImage => String::from_str("dm_image"),
            MediaCategory::DmVideo => String::from_str("dm_video"),
            MediaCategory::DmGif => String::from_str("dm_gif"),
            MediaCategory::Subtitles => String::from_str("subtitles"),
            MediaCategory::Other(s) => s.clone(),
        }
    }

    /// The category with the given name; a name that is not known is kept.
    pub fn from_name(name: &str) -> (r: MediaCategory)
        ensures
            category_name(r) == name@,
            r is Other <==> !is_known_category_name(name@),
    {
        if crate::text::str_eq(name, "tweet_image") {
            MediaCategory::TweetImage
        } else if crate::text::str_eq(name, "tweet_video") {
            MediaCategory::TweetVideo
        } else if crate::text::str_eq(name, "tweet_gif") {
            MediaCategory::TweetGif
        } else if crate::text::str_eq(name, "dm_image") {
            MediaCategory::DmImage
        } else if crate::text::str_eq(name, "dm_video") {
            MediaCategory::DmVideo
        } else if crate::text::str_eq(name, "dm_gif") {
            MediaCategory::DmGif
        } else if crate::text::str_eq(name, "subtitles") {
            MediaCategory::Subtitles
        } else {
            MediaCategory::Other(name.to_owned())
        }
    }
}

#[derive(Debug, Clone)]
pub struct MediaImage {
    pub image_type: String,
    pub w: usize,
    pub h: usize,
}

#[derive(Debug, Clone)]
pub struct MediaVideo {
    pub video_type: String,
}

#[derive(Debug, Clone)]
pub struct MediaProcessingInfo {
    pub state: MediaProcessingInfoState,
    pub check_after_secs: Option<usize>,
    pub progress_percent: Option<usize>,
    pub error: Option<MediaProcessingInfoError>,
}

#[derive(Debug, Clone, Copy, PartialEq, Eq, Structural)]
pub enum MediaProcessingInfoState {
    Pending,
    InProgress,
    Failed,
    Succeeded,
}

impl MediaProcessingInfoState {
    /// Whether processing has ended, so that polling stops.
    pub fn is_finished(&self) -> (r: bool)
        ensures
            r == (*self == MediaProcessingInfoState::Failed || *self
                == MediaProcessingInfoState::Succeeded),
    {
        match self {
            MediaProcessingInfoState::Failed | MediaProcessingInfoState::Succeeded => true,
            _ => false,
        }
    }
}

#[derive(Debug, Clone)]
pub struct MediaProcessingInfoError {
    pub code: usize,
    pub name: String,
    pub message: String,
}

/// The body of an upload command's success.
#[derive(Debug, Clone)]
pub struct UploadResponseBodyOkJson {
    pub media_id: u64,
    pub media_id_string: String,
    pub media_key: String,
    pub size: Option<usize>,
    pub expires_after_secs: Option<usize>,
    pub image: Option<MediaImage>,
    pub video: Option<MediaVideo>,
    pub processing_info: Option<MediaProcessingInfo>,
}

/// A created tweet's id, as a number and as text.
#[derive(Debug, Clone)]
pub struct CreateTweetResponseBodyOkJson {
    pub id: u64,
    pub id_string: String,
}

impl CreateTweetResponseBodyOkJson {
    /// The id of a tweet that the v2 API created.
    pub fn from_v2(value: &v2::TweetsCreateResponseBody) -> (r: Self)
        ensures
            r.id == value.data.id,
            r.id_string@ == decimal(value.data.id as nat),
    {
        CreateTweetResponseBodyOkJson { id: value.data.id, id_string: u64_to_decimal(value.data.id) }
    }
}

/// A user in the v1.1 shape.
#[derive(Debug, Clone)]
pub struct User {
    pub id: u64,
    pub id_str: String,
    pub screen_name: String,
    pub profile_banner_url: Option<String>,
    pub profile_image_url_https: String,
    pub default_profile_image: bool,
}

impl User {
    /// The v1.1 user of a v2 user, which must carry an id, a handle and an
    /// image URL.
    pub fn try_from_v2(value: v2::User) -> (r: Result<User, String>)
        ensures
            r is Ok <==> (value.id is Some && value.username is Some
                && value.profile_image_url is Some),
            r matches Ok(u) ==> {
                &&& value.id == Some(u.id)
                &&& u.id_str@ == decimal(u.id as nat)
                &&& value.username matches Some(n) && u.screen_name@ == n@
                &&& value.profile_image_url matches Some(p) && u.profile_image_url_https@ == p@
                &&& u.profile_banner_url is None
                &&& !u.default_profile_image
            },
    {
        let id = match value.id {
            Some(id) => id,
            None => return Err("id missing".to_owned()),
        };
        let screen_name = match value.username {
            Some(n) => n,
            None => return Err("username missing".to_owned()),
        };
        let profile_image_url_https = match value.profile_image_url {
            Some(p) => p,
            None => return Err("profile_image_url missing".to_owned()),
        };
        Ok(
            User {
                id,
                id_str: u64_to_decimal(id),
                screen_name,
                profile_banner_url: None,
                profile_image_url_https,
                default_profile_image: false,
            },
        )
    }
}

/// The v1.1 failure body that stands for a v2 problem: one entry with code 0,
/// the problem's detail as its message. The type and title are lost.
pub fn error_from_v2(value: v2::ResponseBodyErrJson) -> (r: ResponseBodyErrJson)
    ensures
        r.spec_errors() == seq![(0int, value.detail@)],
{
    let mut errors: Vec<ResponseBodyFailError> = Vec::new();
    errors.push(ResponseBodyFailError { code: 0, message: value.detail });
    let r = ResponseBodyFail { errors };
    assert(r.spec_errors() =~= seq![(0int, value.detail@)]);
    r
}

/// `ret` reports `status` with the v1.1 form of the problem that `body` holds,
/// or with `body` itself where it holds none.
pub open spec fn is_other_v2_response<T>(ret: EndpointRet<T>, status: u16, body: Seq<u8>) -> bool {
    match ret {
        EndpointRet::Other((s, res)) => s == status && match res {
            Ok(f) => (v2::problem_of_body(body) matches Some((_, _, d)) && f.spec_errors() == seq![
                (0int, d),
            ]),
            Err(raw) => v2::problem_of_body(body) is None && raw@ == body,
        },
        EndpointRet::Success(_) => false,
    }
}

/// Reads a failure of an endpoint that the v2 API serves.
pub fn parse_other_v2<T>(status: u16, body: Vec<u8>) -> (r: EndpointRet<T>)
    ensures
        is_other_v2_response(r, status, body@),
{
    match v2::ResponseBodyErrJson::from_body(body.as_slice()) {
        Some(e) => EndpointRet::Other((status, Ok(error_from_v2(e)))),
        None => EndpointRet::Other((status, Err(body))),
    }
}

/// Splits a response of an endpoint that the v2 API serves by its status: the
/// body where the status is `success_status`, else the failure, read.
pub fn dispatch_v2<T>(status: u16, success_status: u16, body: Vec<u8>) -> (r: Result<
    Vec<u8>,
    EndpointRet<T>,
>)
    ensures
        status == success_status ==> (r matches Ok(b) && b@ == body@),
        status != success_status ==> (r matches Err(ret) && is_other_v2_response(ret, status, body@)),
{
    if status == success_status {
        Ok(body)
    } else {
        Err(parse_other_v2(status, body))
    }
}

/// Only images go through the one-shot upload.
pub fn check_image_category(media_category: &MediaCategory) -> (r: Result<(), EndpointError>)
    ensures
        r is Ok <==> (*media_category == MediaCategory::TweetImage || *media_category
            == MediaCategory::DmImage),
        r matches Err(e) ==> e is ValidateFailed,
{
    match media_category {
        MediaCategory::TweetImage | MediaCategory::DmImage => Ok(()),
        _ => Err(EndpointError::ValidateFailed("media_category invalid".to_owned())),
    }
}

/// A segment index lies in `0..=999`.
pub fn check_segment_index(segment_index: usize) -> (r: Result<(), EndpointError>)
    ensures
        r is Ok <==> segment_index <= SEGMENT_INDEX_MAX,
        r matches Err(e) ==> e is ValidateFailed,
{
    if segment_index > SEGMENT_INDEX_MAX {
        Err(EndpointError::ValidateFailed("segment_index invalid".to_owned()))
    } else {
        Ok(())
    }
}

/// A tweet needs a text unless it carries media.
pub fn check_create_tweet(status: Option<&str>, media_ids: Option<&Vec<u64>>) -> (r: Result<
    (),
    EndpointError,
>)
    ensures
        r is Ok <==> (status is Some || media_ids is Some),
        r matches Err(e) ==> e is ValidateFailed,
{
    if status.is_none() && media_ids.is_none() {
        Err(EndpointError::ValidateFailed("status is required if media_ids is not present.".to_owned()))
    } else {
        Ok(())
    }
}

/// The decimal text of each media id, in order.
pub fn media_id_strings(media_ids: &Vec<u64>) -> (r: Vec<String>)
    ensures
        r@.len() == media_ids@.len(),
        forall|i: int| 0 <= i < r@.len() ==> #[trigger] r@[i]@ == decimal(media_ids@[i] as nat),
{
    let mut r: Vec<String> = Vec::new();
    let mut i: usize = 0;
    while i < media_ids.len()
        invariant
            i <= media_ids.len(),
            r@.len() == i,
            forall|j: int| 0 <= j < i ==> #[trigger] r@[j]@ == decimal(media_ids@[j] as nat),
        decreases media_ids.len() - i,
    {
        r.push(u64_to_decimal(media_ids[i]));
        i = i + 1;
    }
    r
}

/// The byte range of segment `segment_index` of a file of `file_size` bytes,
/// and whether it is the last segment.
pub fn segment_bounds(segment_index: usize, file_size: u64) -> (r: (u64, u64, bool))
    requires
        segment_index <= SEGMENT_INDEX_MAX,
    ensures
        r.0 == segment_index * SEGMENT_SIZE,
        r.1 == if r.0 + SEGMENT_SIZE <= file_size {
            r.0 + SEGMENT_SIZE
        } else {
            file_size as int
        },
        r.2 == (r.0 + SEGMENT_SIZE >= file_size),
{
    assert(segment_index * SEGMENT_SIZE <= 999 * 5242880) by (nonlinear_arith)
        requires
            segment_index <= 999,
    ;
    let start: u64 = segment_index as u64 * SEGMENT_SIZE as u64;
    let full: u64 = start + SEGMENT_SIZE as u64;
    let end: u64 = if full <= file_size {
        full
    } else {
        file_size
    };
    (start, end, full >= file_size)
}

} // verus!
