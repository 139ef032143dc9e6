use bili_avatar::api::{
    ApiError, ApiResponse, PageInfo, SeasonArchivesData, SeasonPager, VideoArchive, VideoStat, SEASON_PAGE_SIZE,
};

fn video(aid: i64) -> VideoArchive {
    VideoArchive {
        aid,
        bvid: format!("BV{}", aid),
        title: "t".to_string(),
        pic: "http://p".to_string(),
        pubdate: 0,
        duration: 60,
        stat: VideoStat { view: 1, vt: 0, like: None, coin: None, favorite: None, reply: None, share: None, danmaku: None },
    }
}

fn page(first: i64, n: i64, total: i32) -> SeasonArchivesData {
    SeasonArchivesData {
        archives: (first..first + n).map(video).collect(),
        page: PageInfo { page_num: 0, page_size: SEASON_PAGE_SIZE, total },
    }
}

#[test]
fn into_data_checks_code_and_payload() {
    let ok = ApiResponse { code: 0, message: None, data: Some(5) };
    assert!(matches!(ok.into_data(), Ok(5)));
    let bad = ApiResponse::<i32> { code: -352, message: Some("risk".to_string()), data: Some(1) };
    assert!(matches!(bad.into_data(), Err(ApiError::Status { code: -352, message: Some(m) }) if m == "risk"));
    let empty = ApiResponse::<i32> { code: 0, message: None, data: None };
    assert!(matches!(empty.into_data(), Err(ApiError::EmptyData)));
}

#[test]
fn pager_stops_when_total_is_reached() {
    let mut p = SeasonPager::new();
    assert_eq!(p.next_request(), Some((1, 30)));
    p.accept(page(0, 30, 65));
    assert_eq!(p.next_request(), Some((2, 30)));
    p.accept(page(30, 30, 65));
    assert_eq!(p.next_request(), Some((3, 30)));
    p.accept(page(60, 5, 65));
    assert_eq!(p.next_request(), None);
    let v = p.into_videos();
    assert_eq!(v.len(), 65);
    assert_eq!(v[64].aid, 64);
}

#[test]
fn pager_stops_on_empty_page_and_ignores_negative_total() {
    let mut p = SeasonPager::new();
    p.accept(page(0, 2, -1));
    assert_eq!(p.next_request(), Some((2, 30)));
    p.accept(page(2, 0, -1));
    assert_eq!(p.next_request(), None);
    assert_eq!(p.into_videos().len(), 2);
}
