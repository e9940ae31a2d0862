use hachimi::game::Region;
use hachimi::str_map::StrMap;
use hachimi::windows::external_link::open_url::{
    gacha_url, general_url, link_title_key, DialogTitles, news_url, pares_url, parse_query, resolve_url,
    GachaUrlMap, BASE_API_URL, NEWS_API_URL,
};
use hachimi::windows::external_link::webview::{
    DialogWebView, OpenOutcome, WebviewMessage, WM_CLOSE_WEBVIEW, WM_OPEN_WEBVIEW, WM_SET_WEBVIEW_POSITION, WM_WEBVIEW_GOBACK,
};
use hachimi::windows::external_link::{add_gacha_url, il2cppstring_as_string, open, process_massage};

/// Titles with only the general text.
fn general(t: &str) -> DialogTitles {
    DialogTitles { page: None, general: t.to_string() }
}

fn utf16(s: &str) -> Vec<u16> {
    s.encode_utf16().collect()
}

#[test]
fn pares_url_splits_base_and_params() {
    let (base, params) = pares_url(&"https://a.b/c?x=1&y=two&z".to_string());
    assert_eq!(base, "https://a.b/c");
    assert_eq!(params.get("x"), Some(&"1".to_string()));
    assert_eq!(params.get("y"), Some(&"two".to_string()));
    assert_eq!(params.get("z"), None);
    assert_eq!(params.len(), 2);
}

#[test]
fn pares_url_without_query() {
    let (base, params) = pares_url(&"https://a.b/c".to_string());
    assert_eq!(base, "https://a.b/c");
    assert_eq!(params.len(), 0);
}

#[test]
fn pares_url_repeated_param_keeps_last() {
    let (_, params) = pares_url(&"u?k=1&k=2".to_string());
    assert_eq!(params.get("k"), Some(&"2".to_string()));
    assert_eq!(params.len(), 1);
}

#[test]
fn pares_url_value_keeps_later_equals_and_question_marks() {
    let (base, params) = pares_url(&"u?a=b=c&q=?x".to_string());
    assert_eq!(base, "u");
    assert_eq!(params.get("a"), Some(&"b=c".to_string()));
    assert_eq!(params.get("q"), Some(&"?x".to_string()));
}

#[test]
fn parse_query_empty_and_trailing_separators() {
    assert_eq!(parse_query("").len(), 0);
    let p = parse_query("&a=&&=b&");
    assert_eq!(p.get("a"), Some(&"".to_string()));
    assert_eq!(p.get(""), Some(&"b".to_string()));
    assert_eq!(p.len(), 2);
}

#[test]
fn news_page_opens_news_list() {
    let url = "https://dmg.umamusume.jp/news?id=5".to_string();
    let (base, params) = pares_url(&url);
    let r = news_url(&url, &base, &params);
    assert_eq!(r, Some((NEWS_API_URL.to_string(), "Notice".to_string())));
    assert_eq!(
        NEWS_API_URL,
        "https://api.games.umamusume.jp/umamusume/contents/v/index.html#/info?p=2&c=0"
    );
    let other = "https://dmg.umamusume.jp/newsx".to_string();
    let (base, params) = pares_url(&other);
    assert_eq!(news_url(&other, &base, &params), None);
}

#[test]
fn site_page_opens_same_path_in_game() {
    let url = "https://www.games.umamusume.jp/#/event?id=3".to_string();
    let gacha = GachaUrlMap::new();
    let titles = DialogTitles { page: Some("Event".to_string()), general: "General".to_string() };
    let r = resolve_url(&url, &gacha, &titles);
    assert_eq!(
        r,
        Some((
            "https://api.games.umamusume.jp/umamusume/contents/v/index.html#/event?id=3".to_string(),
            "Event".to_string()
        ))
    );
    assert_eq!(link_title_key(&url), Some("external_link_dialog.title.event".to_string()));
}

#[test]
fn site_page_without_query_is_general() {
    let url = "https://www.games.umamusume.jp/#/top".to_string();
    assert_eq!(link_title_key(&url), Some("external_link_dialog.title.general".to_string()));
    let (base, params) = pares_url(&url);
    let r = general_url(&url, &base, &params, &GachaUrlMap::new(), &general("T"));
    assert_eq!(r, Some((format!("{}top", BASE_API_URL), "T".to_string())));
}

#[test]
fn unknown_link_is_left_to_game() {
    let url = "https://example.com/#/x?y=1".to_string();
    assert_eq!(resolve_url(&url, &GachaUrlMap::new(), &general("T")), None);
    assert_eq!(link_title_key(&url), None);
    assert!(open(&url, Region::Global, true, &GachaUrlMap::new(), &general("T")).is_none());
}

#[test]
fn registered_gacha_opens_gacha_page() {
    let url = "https://www.games.umamusume.jp/#/gacha?v=1&r=2&p=3".to_string();
    let mut gacha = GachaUrlMap::new();
    assert_eq!(resolve_url(&url, &gacha, &general("G")), None);
    add_gacha_url(&mut gacha, &utf16(&url), 30042);
    let r = resolve_url(&url, &gacha, &general("G"));
    assert_eq!(
        r,
        Some((
            "https://api.games.umamusume.jp/umamusume/contents/v/index.html#/gacha?v=1&r=2&g=30042&p=3"
                .to_string(),
            "G".to_string()
        ))
    );
    assert_eq!(link_title_key(&url), Some("external_link_dialog.title.gacha".to_string()));
}

#[test]
fn gacha_url_needs_all_params_and_writes_negative_ids() {
    let url = "https://www.games.umamusume.jp/#/gacha?v=1&p=3".to_string();
    let mut gacha = GachaUrlMap::new();
    add_gacha_url(&mut gacha, &utf16(&url), 7);
    let (_, params) = pares_url(&url);
    assert_eq!(gacha_url(&url, &params, &gacha), None);

    let url2 = "g?v=a&r=b&p=c".to_string();
    add_gacha_url(&mut gacha, &utf16(&url2), i32::MIN);
    let (_, params2) = pares_url(&url2);
    assert_eq!(
        gacha_url(&url2, &params2, &gacha),
        Some(format!("{}gacha?v=a&r=b&g=-2147483648&p=c", BASE_API_URL))
    );
    add_gacha_url(&mut gacha, &utf16(&url2), 0);
    assert_eq!(
        gacha_url(&url2, &params2, &gacha),
        Some(format!("{}gacha?v=a&r=b&g=0&p=c", BASE_API_URL))
    );
}

#[test]
fn open_respects_region_and_option() {
    let url = "https://www.games.umamusume.jp/#/event?id=3".to_string();
    let gacha = GachaUrlMap::new();
    let t = DialogTitles { page: None, general: "E".to_string() };
    assert!(open(&url, Region::Japan, false, &gacha, &t).is_none());
    let req = open(&url, Region::Japan, true, &gacha, &t).unwrap();
    assert_eq!(req.api_url, format!("{}event?id=3", BASE_API_URL));
    assert_eq!(req.title, "E");
    assert_eq!(req.orig_url, url);
    assert!(open(&url, Region::Taiwan, false, &gacha, &t).is_some());
}

#[test]
fn il2cpp_strings_decode_lossily() {
    assert_eq!(il2cppstring_as_string(&utf16("héllo 🐎")), "héllo 🐎");
    assert_eq!(il2cppstring_as_string(&[0x61, 0xD800, 0x62]), "a\u{FFFD}b");
    assert_eq!(il2cppstring_as_string(&[0xDC00]), "\u{FFFD}");
    assert_eq!(il2cppstring_as_string(&[]), "");
}

#[test]
fn gacha_registration_replaces_previous_id() {
    let mut gacha: GachaUrlMap = StrMap::new();
    add_gacha_url(&mut gacha, &utf16("a"), 1);
    add_gacha_url(&mut gacha, &utf16("b"), 2);
    add_gacha_url(&mut gacha, &utf16("a"), 3);
    assert_eq!(gacha.get("a"), Some(&3));
    assert_eq!(gacha.get("b"), Some(&2));
    assert_eq!(gacha.len(), 2);
}

#[test]
fn webview_messages() {
    assert_eq!(WM_OPEN_WEBVIEW, 0x400 + 500);
    assert_eq!(process_massage(WM_OPEN_WEBVIEW), Some(WebviewMessage::Open));
    assert_eq!(process_massage(WM_CLOSE_WEBVIEW), Some(WebviewMessage::Close));
    assert_eq!(process_massage(WM_SET_WEBVIEW_POSITION), Some(WebviewMessage::SetPosition));
    assert_eq!(process_massage(WM_WEBVIEW_GOBACK), Some(WebviewMessage::GoBack));
    assert_eq!(process_massage(0x0010), None);
    assert_eq!(process_massage(0x400 + 504), None);
}

#[test]
fn news_page_resolves_whatever_its_query() {
    let url = "https://dmg.umamusume.jp/news?a=1&b=2".to_string();
    assert_eq!(
        resolve_url(&url, &GachaUrlMap::new(), &general("ignored")),
        Some((NEWS_API_URL.to_string(), "Notice".to_string()))
    );
    assert_eq!(link_title_key(&url), None);
}

#[test]
fn registering_one_gacha_leaves_other_links() {
    let url = "https://www.games.umamusume.jp/#/gacha?v=1&r=2&p=3".to_string();
    let other = "https://www.games.umamusume.jp/#/gacha?v=9&r=9&p=9".to_string();
    let mut gacha = GachaUrlMap::new();
    add_gacha_url(&mut gacha, &utf16(&other), 5);
    let before = resolve_url(&other, &gacha, &general("G"));
    add_gacha_url(&mut gacha, &utf16(&url), 6);
    assert_eq!(resolve_url(&other, &gacha, &general("G")), before);
    assert!(before.is_some());
}

#[test]
fn webview_lifecycle() {
    let api = "https://api/x".to_string();
    let orig = "https://www/x".to_string();
    let title = "T".to_string();
    let mut w = DialogWebView::new();
    assert!(!w.set_position() && !w.back());
    assert_eq!(w.open(&api, &title, &orig, false), OpenOutcome::OpenInBrowser(orig.clone()));
    assert!(!w.back());
    assert_eq!(
        w.open(&api, &title, &orig, true),
        OpenOutcome::ShowDialog { title: title.clone(), orig_url: orig.clone() }
    );
    assert_eq!(w.webview, Some(api.clone()));
    assert!(w.set_position() && w.back());
    assert_eq!(w.open(&"other".to_string(), &title, &orig, false), OpenOutcome::OpenInBrowser(orig.clone()));
    assert_eq!(w.webview, Some(api));
    w.close();
    assert!(!w.set_position() && !w.back());
}

#[test]
fn dialog_title_prefers_page_text() {
    let url = "https://www.games.umamusume.jp/#/event?id=3".to_string();
    let with_page = DialogTitles { page: Some("Events".to_string()), general: "Info".to_string() };
    assert_eq!(resolve_url(&url, &GachaUrlMap::new(), &with_page).unwrap().1, "Events");
    assert_eq!(resolve_url(&url, &GachaUrlMap::new(), &general("Info")).unwrap().1, "Info");
}
