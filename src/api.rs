//! Records of the video site's web API, the check of its response envelope,
//! and the paging of a collection's video list.
use vstd::prelude::*;

verus! {

/// Metadata of a collection ("season").
#[derive(Clone, Debug)]
pub struct SeasonMeta {
    pub season_id: i64,
    pub name: String,
    pub total: i32,
    pub description: Option<String>,
}

/// Metadata of a video series.
#[derive(Clone, Debug)]
pub struct SeriesMeta {
    pub series_id: i64,
    pub name: String,
    pub total: i32,
    pub description: Option<String>,
}

#[derive(Clone, Debug)]
pub struct Season {
    pub meta: SeasonMeta,
}

#[derive(Clone, Debug)]
pub struct Series {
    pub meta: SeriesMeta,
}

/// The collections and series of a user's space.
#[derive(Clone, Debug)]
pub struct ItemsLists {
    pub seasons_list: Option<Vec<Season>>,
    pub series_list: Option<Vec<Series>>,
}

#[derive(Clone, Debug)]
pub struct SpaceCollectionsData {
    pub items_lists: ItemsLists,
}

/// The envelope of every API response: a status code (0 on success), an
/// optional message and the payload.
#[derive(Clone, Debug)]
pub struct ApiResponse<T> {
    pub code: i32,
    pub message: Option<String>,
    pub data: Option<T>,
}

/// Summary of one video.
#[derive(Clone, Debug)]
pub struct VideoArchive {
    pub aid: i64,
    pub bvid: String,
    pub title: String,
    pub pic: String,
    pub pubdate: i64,
    pub duration: i64,
    pub stat: VideoStat,
}

/// Counters of one video.
#[derive(Clone, Debug)]
pub struct VideoStat {
    pub view: i64,
    pub vt: i64,
    pub like: Option<i64>,
    pub coin: Option<i64>,
    pub favorite: Option<i64>,
    pub reply: Option<i64>,
    pub share: Option<i64>,
    pub danmaku: Option<i64>,
}

/// One page of a collection's video list.
#[derive(Clone, Debug)]
pub struct SeasonArchivesData {
    pub archives: Vec<VideoArchive>,
    pub page: PageInfo,
}

#[derive(Clone, Debug)]
pub struct PageInfo {
    pub page_num: i32,
    pub page_size: i32,
    pub total: i32,
}

/// Why an API response carries no usable payload.
#[derive(Clone, Debug)]
pub enum ApiError {
    /// The server answered with a non-zero status code.
    Status { code: i32, message: Option<String> },
    /// The status was 0 but the payload is missing.
    EmptyData,
}

impl<T> ApiResponse<T> {
    /// The payload of a successful response: an error for a non-zero code,
    /// or for a missing payload.
    pub fn into_data(self) -> (r: Result<T, ApiError>)
        ensures
            self.code != 0 ==> r == Err::<T, ApiError>(ApiError::Status { code: self.code, message: self.message }),
            self.code == 0 && self.data is None ==> r == Err::<T, ApiError>(ApiError::EmptyData),
            self.code == 0 && self.data is Some ==> r == Ok::<T, ApiError>(self.data.unwrap()),
    {
        if self.code != 0 {
            return Err(ApiError::Status { code: self.code, message: self.message });
        }
        match self.data {
            Some(d) => Ok(d),
            None => Err(ApiError::EmptyData),
        }
    }
}

/// Page size used when fetching a whole collection.
pub const SEASON_PAGE_SIZE: i32 = 30;

/// Progress through the pages of a collection's video list.
pub struct SeasonPagerView {
    pub page_num: int,
    pub videos: Seq<VideoArchive>,
    pub done: bool,
}

/// Collects the videos of a collection page by page. The caller fetches the
/// page that `next_request` names and hands it to `accept`, until
/// `next_request` gives `None`.
pub struct SeasonPager {
    page_num: i32,
    videos: Vec<VideoArchive>,
    done: bool,
}

impl View for SeasonPager {
    type V = SeasonPagerView;

    closed spec fn view(&self) -> SeasonPagerView {
        SeasonPagerView { page_num: self.page_num as int, videos: self.videos@, done: self.done }
    }
}

/// The pager after a page holding `page` arrived: an empty page ends the
/// walk; otherwise its videos are kept, and the walk ends once as many
/// videos as the page reports in total are kept (a negative total is never
/// reached) or no further page number exists.
pub open spec fn after_page(p: SeasonPagerView, page: SeasonArchivesData) -> SeasonPagerView {
    if page.archives@.len() == 0 {
        SeasonPagerView { done: true, ..p }
    } else {
        let videos = p.videos + page.archives@;
        let complete = page.page.total >= 0 && videos.len() >= page.page.total;
        if complete || p.page_num >= i32::MAX {
            SeasonPagerView { page_num: p.page_num, videos, done: true }
        } else {
            SeasonPagerView { page_num: p.page_num + 1, videos, done: false }
        }
    }
}

impl SeasonPager {
    /// A walk that starts at the first page.
    pub fn new() -> (r: SeasonPager)
        ensures
            r@ == (SeasonPagerView { page_num: 1, videos: Seq::empty(), done: false }),
    {
        SeasonPager { page_num: 1, videos: Vec::new(), done: false }
    }

    /// The page number and page size to fetch next, or `None` when the walk
    /// is over.
    pub fn next_request(&self) -> (r: Option<(i32, i32)>)
        ensures
            r == (if self@.done {
                None
            } else {
                Some((self@.page_num as i32, SEASON_PAGE_SIZE))
            }),
    {
        if self.done {
            None
        } else {
            Some((self.page_num, SEASON_PAGE_SIZE))
        }
    }

    /// Takes in the page that `next_request` named.
    pub fn accept(&mut self, page: SeasonArchivesData)
        requires
            !old(self)@.done,
        ensures
            final(self)@ == after_page(old(self)@, page),
    {
        let ghost old_videos = self.videos@;
        let ghost arrived = page.archives@;
        let total = page.page.total;
        let mut archives = page.archives;
        if archives.len() == 0 {
            self.done = true;
            return;
        }
        self.videos.append(&mut archives);
        let complete = total >= 0 && self.videos.len() >= total as usize;
        if complete || self.page_num == i32::MAX {
            self.done = true;
        } else {
            self.page_num = self.page_num + 1;
        }
    }

    /// The videos collected so far, in page order.
    pub fn into_videos(self) -> (r: Vec<VideoArchive>)
        ensures
            r@ == self@.videos,
    {
        self.videos
    }
}

} // verus!
