//! The records that the service exchanges, and the response envelope.

use vstd::prelude::*;
use crate::error::BiliMangaError;

verus! {

/// Any payload that an envelope can carry.
#[derive(Debug, Clone)]
pub enum ResponseData {
    MangaDetail(MangaDetail),
    EpInfo(EpInfo),
    BiliUserInfo(BiliUserInfo),
    EpisodeDetail(EpisodeDetail),
    ImageToken(Vec<ImageToken>),
}

impl From<MangaDetail> for ResponseData {
    fn from(value: MangaDetail) -> (r: Self)
        ensures
            r == ResponseData::MangaDetail(value),
    {
        ResponseData::MangaDetail(value)
    }
}

impl vstd::std_specs::convert::FromSpecImpl<MangaDetail> for ResponseData {
    open spec fn obeys_from_spec() -> bool {
        true
    }

    open spec fn from_spec(v: MangaDetail) -> ResponseData {
        ResponseData::MangaDetail(v)
    }
}

impl From<EpInfo> for ResponseData {
    fn from(value: EpInfo) -> (r: Self)
        ensures
            r == ResponseData::EpInfo(value),
    {
        ResponseData::EpInfo(value)
    }
}

impl vstd::std_specs::convert::FromSpecImpl<EpInfo> for ResponseData {
    open spec fn obeys_from_spec() -> bool {
        true
    }

    open spec fn from_spec(v: EpInfo) -> ResponseData {
        ResponseData::EpInfo(v)
    }
}

impl From<BiliUserInfo> for ResponseData {
    fn from(value: BiliUserInfo) -> (r: Self)
        ensures
            r == ResponseData::BiliUserInfo(value),
    {
        ResponseData::BiliUserInfo(value)
    }
}

impl vstd::std_specs::convert::FromSpecImpl<BiliUserInfo> for ResponseData {
    open spec fn obeys_from_spec() -> bool {
        true
    }

    open spec fn from_spec(v: BiliUserInfo) -> ResponseData {
        ResponseData::BiliUserInfo(v)
    }
}

impl From<EpisodeDetail> for ResponseData {
    fn from(value: EpisodeDetail) -> (r: Self)
        ensures
            r == ResponseData::EpisodeDetail(value),
    {
        ResponseData::EpisodeDetail(value)
    }
}

impl vstd::std_specs::convert::FromSpecImpl<EpisodeDetail> for ResponseData {
    open spec fn obeys_from_spec() -> bool {
        true
    }

    open spec fn from_spec(v: EpisodeDetail) -> ResponseData {
        ResponseData::EpisodeDetail(v)
    }
}

impl From<Vec<ImageToken>> for ResponseData {
    fn from(value: Vec<ImageToken>) -> (r: Self)
        ensures
            r == ResponseData::ImageToken(value),
    {
        ResponseData::ImageToken(value)
    }
}

impl vstd::std_specs::convert::FromSpecImpl<Vec<ImageToken>> for ResponseData {
    open spec fn obeys_from_spec() -> bool {
        true
    }

    open spec fn from_spec(v: Vec<ImageToken>) -> ResponseData {
        ResponseData::ImageToken(v)
    }
}

/// The envelope around every answer: `code == 0` means success with `data`;
/// otherwise `msg`, or failing that `message`, says what went wrong.
#[derive(Debug, Clone)]
pub struct BaseResponse<T> {
    pub code: i64,
    pub message: Option<String>,
    pub msg: Option<String>,
    pub data: Option<T>,
}

/// The error text of an envelope: `msg` if present, else `message`, else
/// nothing.
pub open spec fn error_text(msg: Option<String>, message: Option<String>) -> Seq<char> {
    match msg {
        Some(m) => m@,
        None => match message {
            Some(m) => m@,
            None => Seq::empty(),
        },
    }
}

impl<T> BaseResponse<T> {
    /// The service's error text, `msg` before `message`.
    pub fn error_message(&self) -> (r: String)
        ensures
            r@ == error_text(self.msg, self.message),
    {
        match &self.msg {
            Some(m) => m.clone(),
            None => match &self.message {
                Some(m) => m.clone(),
                None => String::new(),
            },
        }
    }

    /// The payload of a successful answer, or the error that the answer
    /// stands for.
    pub fn into_result(self) -> (r: Result<T, BiliMangaError>)
        ensures
            self.code == 0 && self.data is Some ==> r == Ok::<T, BiliMangaError>(self.data->0),
            self.code == 0 && self.data is None ==> r matches Err(BiliMangaError::MissingData),
            self.code != 0 ==> (r matches Err(BiliMangaError::CustomError(s)) && s@ == error_text(
                self.msg,
                self.message,
            )),
    {
        if self.code != 0 {
            let text = self.error_message();
            return Err(BiliMangaError::CustomError(text));
        }
        match self.data {
            Some(d) => Ok(d),
            None => Err(BiliMangaError::MissingData),
        }
    }
}

/// A comic: its id, title and episodes in catalog order.
#[derive(Debug, Clone)]
pub struct MangaDetail {
    pub id: i64,
    pub title: String,
    pub ep_list: Vec<EpInfo>,
}

/// One episode of a comic; `ord` names its directory.
#[derive(Debug, Clone)]
pub struct EpInfo {
    pub id: i64,
    pub title: String,
    pub short_title: String,
    pub is_in_free: bool,
    pub is_locked: bool,
    pub ord: i64,
}

/// The signed-in user.
#[derive(Debug, Clone)]
pub struct BiliUserInfo {
    pub uname: String,
}

/// Where an episode's encrypted manifest lies.
#[derive(Debug, Clone)]
pub struct EpisodeDetail {
    pub path: String,
    pub host: String,
    pub images: Vec<ImageDetail>,
}

/// One image as the episode index describes it.
#[derive(Debug, Clone)]
pub struct ImageDetail {
    pub path: String,
    pub x: i64,
    pub y: i64,
    video_path: String,
    video_size: String,
}

impl ImageDetail {
    /// The image's path.
    pub closed spec fn path_spec(&self) -> String {
        self.path
    }

    /// The image's width.
    pub closed spec fn x_spec(&self) -> i64 {
        self.x
    }

    /// The image's height.
    pub closed spec fn y_spec(&self) -> i64 {
        self.y
    }

    /// The path of the image's video form.
    pub closed spec fn video_path_spec(&self) -> String {
        self.video_path
    }

    /// The size of the image's video form.
    pub closed spec fn video_size_spec(&self) -> String {
        self.video_size
    }

    /// An image record with all its fields.
    pub fn new(path: String, x: i64, y: i64, video_path: String, video_size: String) -> (r: Self)
        ensures
            r.path_spec() == path,
            r.x_spec() == x,
            r.y_spec() == y,
            r.video_path_spec() == video_path,
            r.video_size_spec() == video_size,
    {
        ImageDetail { path, x, y, video_path, video_size }
    }

    /// The path of the image's video form.
    pub fn video_path(&self) -> (r: &String)
        ensures
            *r == self.video_path_spec(),
    {
        &self.video_path
    }

    /// The size of the image's video form.
    pub fn video_size(&self) -> (r: &String)
        ensures
            *r == self.video_size_spec(),
    {
        &self.video_size
    }
}

/// The decrypted manifest: image paths in page order.
#[derive(Debug, Clone)]
pub struct ImageIndex {
    pub pics: Vec<String>,
}

/// A signed access token for one image.
#[derive(Debug, Clone)]
pub struct ImageToken {
    pub url: String,
    pub token: String,
}

} // verus!
