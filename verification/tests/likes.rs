use soundcloud_dl::soundcloud::likes::{likes_window, set_limit, LikesPager};
use soundcloud_dl::soundcloud::model::{GetLikesResponse, Like, Media, Track, User};

fn like(id: u64) -> Like {
    Like {
        track: Track {
            id,
            artwork_url: None,
            permalink: format!("track-{}", id),
            permalink_url: format!("https://soundcloud.com/u/track-{}", id),
            title: format!("Track {}", id),
            media: Media { transcodings: vec![] },
            user: User { id: 9, username: "u".to_string(), permalink: "u".to_string() },
        },
    }
}

/// The number behind `name=` in an address, if the address holds one.
fn number_of(url: &str, name: &str) -> Option<usize> {
    let query = url.split('?').nth(1)?;
    for pair in query.split('&') {
        if let Some(value) = pair.strip_prefix(name).and_then(|v| v.strip_prefix('=')) {
            return value.parse().ok();
        }
    }
    None
}

/// The number behind `limit=` in an address.
fn limit_of(url: &str) -> usize {
    number_of(url, "limit").unwrap()
}

/// A catalog of `total` likes, numbered in the order of the listing. It
/// serves each request from the offset that the address names, and hands
/// out as many records as are asked for, but no more than `page_size`.
struct Server {
    total: usize,
    page_size: usize,
    requests: Vec<String>,
    pages: Vec<usize>,
}

impl Server {
    fn new(total: usize, page_size: usize) -> Server {
        Server { total, page_size, requests: vec![], pages: vec![] }
    }

    fn answer(&mut self, url: &str) -> GetLikesResponse {
        self.requests.push(url.to_string());
        let offset = number_of(url, "offset").unwrap_or(0).min(self.total);
        let wanted = limit_of(url).min(self.page_size).min(self.total - offset);
        let collection: Vec<Like> = (offset..offset + wanted).map(|i| like(i as u64)).collect();
        self.pages.push(wanted);
        let next_href = if offset + wanted < self.total {
            Some(format!(
                "https://api-v2.soundcloud.com/users/42/track_likes?offset={}&limit={}",
                offset + wanted,
                self.page_size
            ))
        } else {
            None
        };
        GetLikesResponse { collection, next_href }
    }
}

fn list(server: &mut Server, limit: u32, chunk_size: u32) -> Vec<Like> {
    let mut pager = LikesPager::new(42, limit, chunk_size);
    let mut rounds = 0;
    while let Some(url) = pager.next_url().cloned() {
        let page = server.answer(&url);
        pager.accept(page);
        rounds += 1;
        assert!(rounds < 1000);
    }
    assert!(pager.is_done());
    pager.into_likes()
}

#[test]
fn a_hundred_and_twenty_likes_come_in_three_pages() {
    let mut server = Server::new(500, 50);
    let likes = list(&mut server, 120, 50);
    assert_eq!(server.pages, vec![50, 50, 20]);
    assert_eq!(likes.len(), 120);
    let ids: Vec<u64> = likes.iter().map(|l| l.track.id).collect();
    assert_eq!(ids, (0..120).collect::<Vec<u64>>());
}

#[test]
fn the_requests_ask_for_fifty_fifty_and_twenty() {
    let mut server = Server::new(500, 50);
    list(&mut server, 120, 50);
    assert_eq!(
        server.requests,
        vec![
            "https://api-v2.soundcloud.com/users/42/track_likes?limit=50".to_string(),
            "https://api-v2.soundcloud.com/users/42/track_likes?offset=50&limit=50".to_string(),
            "https://api-v2.soundcloud.com/users/42/track_likes?offset=100&limit=20".to_string(),
        ]
    );
    let asked: Vec<usize> = server.requests.iter().map(|r| limit_of(r)).collect();
    assert_eq!(asked, vec![50, 50, 20]);
}

#[test]
fn a_catalog_with_larger_pages_is_still_asked_page_by_page() {
    // The catalog would hand out 200 records at once; the listing asks for 50.
    let mut server = Server::new(500, 200);
    let likes = list(&mut server, 120, 50);
    assert_eq!(server.pages, vec![50, 50, 20]);
    let ids: Vec<u64> = likes.iter().map(|l| l.track.id).collect();
    assert_eq!(ids, (0..120).collect::<Vec<u64>>());
}

#[test]
fn the_records_are_the_first_of_the_listing_and_none_comes_twice() {
    for (limit, chunk) in [(120u32, 50u32), (7, 3), (100, 50), (101, 50), (99, 50), (5, 64)] {
        let mut server = Server::new(500, 50);
        let likes = list(&mut server, limit, chunk);
        let ids: Vec<u64> = likes.iter().map(|l| l.track.id).collect();
        assert_eq!(ids, (0..limit as u64).collect::<Vec<u64>>());
    }
}

#[test]
fn thirty_likes_come_in_one_page_that_is_cut() {
    let mut server = Server::new(500, 50);
    let mut pager = LikesPager::new(42, 30, 50);
    let url = pager.next_url().cloned().unwrap();
    assert_eq!(url, "https://api-v2.soundcloud.com/users/42/track_likes?limit=30");
    let mut page = server.answer(&url);
    // The catalog hands out a whole page, whatever was asked for.
    page.collection = (0..50).map(like).collect();
    pager.accept(page);
    assert!(pager.is_done());
    assert_eq!(pager.next_url(), None);
    let likes = pager.into_likes();
    assert_eq!(likes.len(), 30);
    assert_eq!(likes.last().unwrap().track.id, 29);
    assert_eq!(server.requests.len(), 1);
}

#[test]
fn a_page_size_above_what_is_missing_is_put_up_with() {
    let mut server = Server::new(500, 50);
    let likes = list(&mut server, 7, 1000);
    assert_eq!(likes.len(), 7);
    assert_eq!(server.pages, vec![7]);
}

#[test]
fn the_listing_ends_where_no_further_page_is_named() {
    let mut server = Server::new(65, 50);
    let likes = list(&mut server, 200, 50);
    assert_eq!(server.pages, vec![50, 15]);
    assert_eq!(likes.len(), 65);
}

#[test]
fn the_named_address_is_followed_while_a_whole_page_is_missing() {
    let mut server = Server::new(500, 50);
    list(&mut server, 150, 50);
    assert_eq!(server.pages, vec![50, 50, 50]);
    assert_eq!(limit_of(&server.requests[2]), 50);
    assert!(server.requests[2].contains("offset=100"));
}

#[test]
fn never_more_records_than_wanted() {
    for limit in [0u32, 1, 49, 50, 51, 99, 100, 101, 120] {
        for chunk in [1u32, 10, 50, 64] {
            let mut server = Server::new(500, 50);
            let likes = list(&mut server, limit, chunk);
            assert_eq!(likes.len(), limit as usize);
        }
    }
}

#[test]
fn a_page_after_the_end_is_dropped() {
    let mut pager = LikesPager::new(1, 1, 50);
    pager.accept(GetLikesResponse { collection: vec![like(1)], next_href: None });
    assert!(pager.is_done());
    pager.accept(GetLikesResponse { collection: vec![like(2)], next_href: Some("x".to_string()) });
    assert!(pager.is_done());
    assert_eq!(pager.into_likes(), vec![like(1)]);
}

#[test]
fn the_limit_of_an_address_is_set_and_nothing_else() {
    assert_eq!(set_limit("https://h/likes?offset=100&limit=50", 20), "https://h/likes?offset=100&limit=20");
    assert_eq!(set_limit("https://h/likes?limit=50&offset=100", 7), "https://h/likes?limit=7&offset=100");
    assert_eq!(set_limit("https://h/likes?limit=&x=1", 3), "https://h/likes?limit=3&x=1");
    assert_eq!(set_limit("https://h/likes?limit=50", 0), "https://h/likes?limit=0");
    assert_eq!(set_limit("https://h/likes?a=1&limit=5&limit=6", 9), "https://h/likes?a=1&limit=9&limit=6");
    assert_eq!(set_limit("https://h/likes?cursor=abc", 20), "https://h/likes?cursor=abc&limit=20");
    assert_eq!(set_limit("https://h/likes", 20), "https://h/likes?limit=20");
    assert_eq!(set_limit("", 20), "?limit=20");
    // A word that only ends in `limit=` is no parameter of that name.
    assert_eq!(set_limit("https://h/likes?nolimit=5", 2), "https://h/likes?nolimit=5&limit=2");
    assert_eq!(set_limit("https://h/limit=5", 2), "https://h/limit=5?limit=2");
    assert_eq!(set_limit("limit=5", 2), "limit=5?limit=2");
    assert_eq!(set_limit("https://h/likes?limit=50", u64::MAX), "https://h/likes?limit=18446744073709551615");
}

#[test]
fn a_page_size_of_nothing_sets_no_bound() {
    let pager = LikesPager::new(42, 10, 0);
    assert_eq!(
        pager.next_url().cloned().unwrap(),
        "https://api-v2.soundcloud.com/users/42/track_likes?limit=10"
    );
    let mut server = Server::new(500, 50);
    let likes = list(&mut server, 70, 0);
    assert_eq!(server.pages, vec![50, 20]);
    assert_eq!(likes.len(), 70);
}

#[test]
fn an_address_without_a_limit_gets_one() {
    let mut pager = LikesPager::new(42, 120, 50);
    let page = GetLikesResponse {
        collection: (0..50).map(like).collect(),
        next_href: Some("https://api-v2.soundcloud.com/users/42/track_likes?cursor=abc".to_string()),
    };
    pager.accept(page);
    assert_eq!(
        pager.next_url().cloned().unwrap(),
        "https://api-v2.soundcloud.com/users/42/track_likes?cursor=abc&limit=50"
    );
    let page = GetLikesResponse {
        collection: (50..100).map(like).collect(),
        next_href: Some("https://api-v2.soundcloud.com/users/42/track_likes?limit=200&cursor=def".to_string()),
    };
    pager.accept(page);
    assert_eq!(
        pager.next_url().cloned().unwrap(),
        "https://api-v2.soundcloud.com/users/42/track_likes?limit=20&cursor=def"
    );
}

#[test]
fn the_window_of_a_batch() {
    assert_eq!(likes_window(10, 0, 10), (0, 10));
    assert_eq!(likes_window(10, 3, 10), (3, 7));
    assert_eq!(likes_window(10, 3, 5), (3, 5));
    assert_eq!(likes_window(10, 8, 5), (8, 2));
    assert_eq!(likes_window(10, 10, 5), (10, 0));
    assert_eq!(likes_window(10, 25, 5), (10, 0));
    assert_eq!(likes_window(0, 0, 5), (0, 0));
    assert_eq!(likes_window(10, 0, 0), (0, 0));
}
