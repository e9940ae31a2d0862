//! Which of the game's external links open in the web view, and at which
//! address.
//!
//! A link is split into its base (up to the first `?`) and its query
//! parameters. Handlers are tried in turn: the news page goes to the news
//! list of the in-game site; pages of the game's web site go to the same
//! page of the in-game site, gacha pages being rebuilt from the gacha id that
//! the game registered for the link.
use vstd::prelude::*;

use crate::game::Region;
use crate::str_map::{map_of, StrMap};
use crate::text::{
    decimal, find_char, index_of, is_first_index, lemma_index_of_is, lemma_index_of_some, push_decimal, starts_with, str_eq,
    str_starts_with, utf16_decode_lossy, utf16_to_string,
};

verus! {

/// Parameters of a link's query, by name.
pub type QueryParams = StrMap<String>;

/// Gacha ids that the game registered, by the link that shows the gacha.
pub type GachaUrlMap = StrMap<i32>;

/// Address of the news page of the game's web site.
pub const NEWS_PAGE_URL: &'static str = "https://dmg.umamusume.jp/news";

/// Address at which the news list is shown in game.
pub const NEWS_API_URL: &'static str =
    "https://api.games.umamusume.jp/umamusume/contents/v/index.html#/info?p=2&c=0";

/// Title of the dialog that shows the news.
pub const NEWS_TITLE: &'static str = "Notice";

/// Prefix of the pages of the game's web site.
pub const GAME_SITE_URL: &'static str = "https://www.games.umamusume.jp/#/";

/// Prefix of the in-game pages.
pub const BASE_API_URL: &'static str = "https://api.games.umamusume.jp/umamusume/contents/v/index.html#/";

/// Prefix of the locale keys of the dialog titles.
pub const TITLE_KEY_PREFIX: &'static str = "external_link_dialog.title.";

/// Locale key of the general dialog title.
pub const GENERAL_TITLE_KEY: &'static str = "external_link_dialog.title.general";

/// Page type of links that carry no query.
pub const GENERAL_PAGE: &'static str = "general";

/// Page type of gacha pages.
pub const GACHA_PAGE: &'static str = "gacha";

/// The pieces of `s` between the occurrences of `sep`, as `str::split`
/// yields them (an empty string gives one empty piece).
pub open spec fn split_on(s: Seq<char>, sep: char) -> Seq<Seq<char>>
    decreases s.len(),
{
    if s.len() == 0 {
        seq![Seq::empty()]
    } else {
        let rest = split_on(s.drop_last(), sep);
        if s.last() == sep {
            rest.push(Seq::empty())
        } else {
            rest.update(rest.len() - 1, rest.last().push(s.last()))
        }
    }
}

proof fn lemma_split_on_len(s: Seq<char>, sep: char)
    ensures
        split_on(s, sep).len() >= 1,
    decreases s.len(),
{
    if s.len() > 0 {
        lemma_split_on_len(s.drop_last(), sep);
    }
}

/// `s` cut at its first `c`, as `str::split_once` does.
pub open spec fn split_once(s: Seq<char>, c: char) -> Option<(Seq<char>, Seq<char>)> {
    match index_of(s, c) {
        Some(i) => Some((s.take(i), s.skip(i + 1))),
        None => None,
    }
}

/// The `name=value` pairs among `pieces`, in order; pieces without `=` are dropped.
pub open spec fn query_pairs(pieces: Seq<Seq<char>>) -> Seq<(Seq<char>, Seq<char>)>
    decreases pieces.len(),
{
    if pieces.len() == 0 {
        Seq::empty()
    } else {
        let rest = query_pairs(pieces.drop_last());
        match split_once(pieces.last(), '=') {
            Some(kv) => rest.push(kv),
            None => rest,
        }
    }
}

/// The parameters of the query `q`: its `&`-separated `name=value` pairs,
/// a later value of a name replacing an earlier one.
pub open spec fn query_params(q: Seq<char>) -> Map<Seq<char>, Seq<char>> {
    map_of(query_pairs(split_on(q, '&')))
}

/// The part of `url` before its first `?` (all of it if there is none).
pub open spec fn url_base(url: Seq<char>) -> Seq<char> {
    match index_of(url, '?') {
        Some(i) => url.take(i),
        None => url,
    }
}

/// The parameters of the query after the first `?` of `url` (none if there is no `?`).
pub open spec fn url_params(url: Seq<char>) -> Map<Seq<char>, Seq<char>> {
    match index_of(url, '?') {
        Some(i) => query_params(url.skip(i + 1)),
        None => Map::empty(),
    }
}

/// A pair of strings, taken by their views.
pub open spec fn pair_view(p: (String, String)) -> (Seq<char>, Seq<char>) {
    (p.0@, p.1@)
}

/// An optional pair of strings, taken by their views.
pub open spec fn opt_pair_view(r: Option<(String, String)>) -> Option<(Seq<char>, Seq<char>)> {
    match r {
        Some(p) => Some(pair_view(p)),
        None => None,
    }
}

/// `piece` cut at its first `c`.
fn split_once_char(piece: &str, c: char) -> (r: Option<(String, String)>)
    ensures
        opt_pair_view(r) == split_once(piece@, c),
{
    match find_char(piece, c) {
        Some(i) => {
            let n = piece.unicode_len();
            let k = String::from_str(piece.substring_char(0, i));
            let v = String::from_str(piece.substring_char(i + 1, n));
            assert(k@ =~= piece@.take(i as int));
            assert(v@ =~= piece@.skip(i + 1));
            Some((k, v))
        },
        None => None,
    }
}

proof fn lemma_params_push(done: Seq<Seq<char>>, piece: Seq<char>)
    ensures
        map_of(query_pairs(done.push(piece))) == match split_once(piece, '=') {
            Some(kv) => map_of(query_pairs(done)).insert(kv.0, kv.1),
            None => map_of(query_pairs(done)),
        },
{
    assert(done.push(piece).drop_last() =~= done);
    let qp = query_pairs(done);
    match split_once(piece, '=') {
        Some(kv) => {
            assert(qp.push(kv).drop_last() =~= qp);
        },
        None => {},
    }
}

/// Records the pair that `piece` holds, if any.
fn add_piece(params: &mut QueryParams, piece: &str)
    ensures
        final(params)@ == match split_once(piece@, '=') {
            Some(kv) => old(params)@.insert(kv.0, kv.1),
            None => old(params)@,
        },
{
    match split_once_char(piece, '=') {
        Some((k, v)) => params.insert(k, v),
        None => {},
    }
}

/// The parameters of the query `q`.
pub fn parse_query(q: &str) -> (params: QueryParams)
    ensures
        params@ == query_params(q@),
{
    let n = q.unicode_len();
    let mut params: QueryParams = StrMap::new();
    let mut start: usize = 0;
    let mut i: usize = 0;
    let ghost mut done: Seq<Seq<char>> = Seq::empty();
    assert(q@.take(0) =~= Seq::<char>::empty());
    assert(q@.subrange(0, 0) =~= Seq::<char>::empty());
    assert(params@ == map_of(query_pairs(done)));
    while i < n
        invariant
            n == q@.len(),
            start <= i <= n,
            split_on(q@.take(i as int), '&') == done.push(q@.subrange(start as int, i as int)),
            params@ == map_of(query_pairs(done)),
        decreases n - i,
    {
        let c = q.get_char(i);
        assert(q@.take(i + 1).drop_last() =~= q@.take(i as int));
        assert(q@.take(i + 1).last() == c);
        if c == '&' {
            let piece = q.substring_char(start, i);
            add_piece(&mut params, piece);
            proof {
                lemma_params_push(done, piece@);
                done = done.push(piece@);
                assert(q@.subrange(i + 1, i + 1) =~= Seq::<char>::empty());
                assert(split_on(q@.take(i + 1), '&') =~= done.push(
                    q@.subrange(i + 1, i + 1),
                ));
            }
            start = i + 1;
        } else {
            proof {
                assert(q@.subrange(start as int, i as int).push(c) =~= q@.subrange(
                    start as int,
                    i + 1,
                ));
                assert(split_on(q@.take(i + 1), '&') =~= done.push(
                    q@.subrange(start as int, i + 1),
                ));
            }
        }
        i = i + 1;
    }
    let piece = q.substring_char(start, n);
    add_piece(&mut params, piece);
    proof {
        assert(q@.take(n as int) =~= q@);
        lemma_params_push(done, piece@);
    }
    params
}

/// Splits `url` into its base and its query parameters.
pub fn pares_url(url: &String) -> (r: (String, QueryParams))
    ensures
        r.0@ == url_base(url@),
        r.1@ == url_params(url@),
{
    let s = url.as_str();
    match find_char(s, '?') {
        Some(pos) => {
            let n = s.unicode_len();
            let base = String::from_str(s.substring_char(0, pos));
            let query = s.substring_char(pos + 1, n);
            let params = parse_query(query);
            assert(base@ =~= url@.take(pos as int));
            assert(query@ =~= url@.skip(pos + 1));
            (base, params)
        },
        None => (url.clone(), StrMap::new()),
    }
}

/// The news handler: the news page opens the in-game news list.
pub open spec fn news_url_spec(base_url: Seq<char>) -> Option<(Seq<char>, Seq<char>)> {
    if base_url == NEWS_PAGE_URL@ {
        Some((NEWS_API_URL@, NEWS_TITLE@))
    } else {
        None
    }
}

/// The news handler: the address and title under which the link opens,
/// when it is the news page.
pub fn news_url(_url: &String, base_url: &String, _params: &QueryParams) -> (r: Option<(String, String)>)
    ensures
        opt_pair_view(r) == news_url_spec(base_url@),
{
    if str_eq(base_url.as_str(), NEWS_PAGE_URL) {
        Some((String::from_str(NEWS_API_URL), String::from_str(NEWS_TITLE)))
    } else {
        None
    }
}

/// The in-game address of the gacha page with id `gacha_id`, for the
/// parameters `v`, `r` and `p` of the link.
pub open spec fn gacha_api_url(v: Seq<char>, r: Seq<char>, gacha_id: i32, p: Seq<char>) -> Seq<char> {
    BASE_API_URL@ + "gacha?v="@ + v + "&r="@ + r + "&g="@ + decimal(gacha_id as int) + "&p="@ + p
}

/// The gacha handler: a link that the game registered, with parameters
/// `v`, `r` and `p`, opens the in-game gacha page.
pub open spec fn gacha_url_spec(
    url: Seq<char>,
    params: Map<Seq<char>, Seq<char>>,
    gacha: Map<Seq<char>, i32>,
) -> Option<Seq<char>> {
    if gacha.contains_key(url) && params.contains_key("v"@) && params.contains_key("r"@)
        && params.contains_key("p"@) {
        Some(gacha_api_url(params["v"@], params["r"@], gacha[url], params["p"@]))
    } else {
        None
    }
}

/// The in-game address of the gacha page that `url` shows.
pub fn gacha_url(url: &String, params: &QueryParams, gacha: &GachaUrlMap) -> (r: Option<String>)
    ensures
        match r {
            Some(a) => gacha_url_spec(url@, params@, gacha@) == Some(a@),
            None => gacha_url_spec(url@, params@, gacha@) is None,
        },
{
    let gacha_id = match gacha.get(url.as_str()) {
        Some(id) => *id,
        None => return None,
    };
    let v = match params.get("v") {
        Some(v) => v,
        None => return None,
    };
    let r = match params.get("r") {
        Some(r) => r,
        None => return None,
    };
    let p = match params.get("p") {
        Some(p) => p,
        None => return None,
    };
    let mut api_url = String::from_str(BASE_API_URL);
    api_url.append("gacha?v=");
    api_url.append(v.as_str());
    api_url.append("&r=");
    api_url.append(r.as_str());
    api_url.append("&g=");
    push_decimal(&mut api_url, gacha_id);
    api_url.append("&p=");
    api_url.append(p.as_str());
    Some(api_url)
}

/// The texts a dialog title is chosen from: `page`, the current locale's
/// text for the page type's key (`link_title_key`), when the locale has
/// one; `general`, the locale's text for `GENERAL_TITLE_KEY`.
pub struct DialogTitles {
    pub page: Option<String>,
    pub general: String,
}

/// The title of the dialog: the page type's text when there is one, else
/// the general title's.
pub open spec fn dialog_title(t: DialogTitles) -> Seq<char> {
    match t.page {
        Some(p) => p@,
        None => t.general@,
    }
}

/// The title of the dialog, chosen from `titles`.
pub fn choose_title(titles: &DialogTitles) -> (r: String)
    ensures
        r@ == dialog_title(*titles),
{
    match &titles.page {
        Some(p) => p.clone(),
        None => titles.general.clone(),
    }
}

/// The page type of a link of the game's web site: what follows the site
/// prefix in its base when the link has a query, `general` when it has none.
pub open spec fn url_type(url: Seq<char>, base_url: Seq<char>) -> Seq<char> {
    if index_of(url, '?') is Some {
        base_url.skip(GAME_SITE_URL@.len() as int)
    } else {
        GENERAL_PAGE@
    }
}

/// The general handler: a page of the game's web site opens the same page
/// of the in-game site, under `title` (the chosen dialog title); a gacha
/// page opens only when the
/// gacha handler finds its address.
pub open spec fn general_url_spec(
    url: Seq<char>,
    base_url: Seq<char>,
    params: Map<Seq<char>, Seq<char>>,
    gacha: Map<Seq<char>, i32>,
    title: Seq<char>,
) -> Option<(Seq<char>, Seq<char>)> {
    if !starts_with(base_url, GAME_SITE_URL@) {
        None
    } else if url_type(url, base_url) == GACHA_PAGE@ {
        match gacha_url_spec(url, params, gacha) {
            Some(a) => Some((a, title)),
            None => None,
        }
    } else {
        Some((BASE_API_URL@ + url.skip(GAME_SITE_URL@.len() as int), title))
    }
}

proof fn lemma_url_base_prefix(url: Seq<char>)
    ensures
        url_base(url).len() <= url.len(),
        url_base(url) == url.take(url_base(url).len() as int),
{
    lemma_index_of_some(url, '?');
    assert(url.take(url.len() as int) =~= url);
}

/// The page type of `url` when it is a page of the game's web site.
pub fn general_url_type(url: &String, base_url: &String) -> (r: Option<String>)
    requires
        base_url@ == url_base(url@),
    ensures
        match r {
            Some(t) => starts_with(base_url@, GAME_SITE_URL@) && t@ == url_type(url@, base_url@),
            None => !starts_with(base_url@, GAME_SITE_URL@),
        },
{
    if !str_starts_with(base_url.as_str(), GAME_SITE_URL) {
        return None;
    }
    // `GAME_SITE_URL` is ASCII, so its length in characters is also the byte
    // offset at which the page type starts.
    let prefix_len = GAME_SITE_URL.unicode_len();
    match find_char(url.as_str(), '?') {
        Some(_) => {
            let b = base_url.as_str();
            let n = b.unicode_len();
            let t = String::from_str(b.substring_char(prefix_len, n));
            assert(t@ =~= base_url@.skip(prefix_len as int));
            Some(t)
        },
        None => Some(String::from_str(GENERAL_PAGE)),
    }
}

/// The general handler: the address and title under which a page of the
/// game's web site opens in game.
///
/// `base_url` is the base that `pares_url` gives for `url`, as the handlers
/// are always called with it.
pub fn general_url(
    url: &String,
    base_url: &String,
    params: &QueryParams,
    gacha: &GachaUrlMap,
    titles: &DialogTitles,
) -> (r: Option<(String, String)>)
    requires
        base_url@ == url_base(url@),
    ensures
        opt_pair_view(r) == general_url_spec(
            url@,
            base_url@,
            params@,
            gacha@,
            dialog_title(*titles),
        ),
{
    let url_type = match general_url_type(url, base_url) {
        Some(t) => t,
        None => return None,
    };
    if str_eq(url_type.as_str(), GACHA_PAGE) {
        match gacha_url(url, params, gacha) {
            Some(a) => Some((a, choose_title(titles))),
            None => None,
        }
    } else {
        proof {
            lemma_url_base_prefix(url@);
        }
        let prefix_len = GAME_SITE_URL.unicode_len();
        let u = url.as_str();
        let n = u.unicode_len();
        // the link starts with the site prefix, so its first occurrence is
        // at the start and is the one replaced
        let mut api_url = String::from_str(BASE_API_URL);
        let rest = u.substring_char(prefix_len, n);
        api_url.append(rest);
        assert(rest@ =~= url@.skip(prefix_len as int));
        Some((api_url, choose_title(titles)))
    }
}

/// The key under which the title of the dialog for a link of the game's
/// web site is looked up in the locale.
pub open spec fn title_key_spec(url: Seq<char>) -> Option<Seq<char>> {
    if starts_with(url_base(url), GAME_SITE_URL@) {
        Some(TITLE_KEY_PREFIX@ + url_type(url, url_base(url)))
    } else {
        None
    }
}

/// The locale key of the title under which `url` opens, when the general
/// handler takes it; the dialog shows the key's text in the current locale,
/// or the general title's text when the key has none.
pub fn link_title_key(url: &String) -> (r: Option<String>)
    ensures
        match r {
            Some(k) => title_key_spec(url@) == Some(k@),
            None => title_key_spec(url@) is None,
        },
{
    let (base_url, _params) = pares_url(url);
    match general_url_type(url, &base_url) {
        Some(t) => {
            let mut key = String::from_str(TITLE_KEY_PREFIX);
            key.append(t.as_str());
            Some(key)
        },
        None => None,
    }
}

/// Where `url` opens and under which title: the first handler that takes
/// it decides (news first, then the general handler with `title`).
pub open spec fn resolve_spec(url: Seq<char>, gacha: Map<Seq<char>, i32>, title: Seq<char>) -> Option<
    (Seq<char>, Seq<char>),
> {
    match news_url_spec(url_base(url)) {
        Some(x) => Some(x),
        None => general_url_spec(url, url_base(url), url_params(url), gacha, title),
    }
}

/// The address and title under which `url` opens in game, if a handler takes it.
pub fn resolve_url(url: &String, gacha: &GachaUrlMap, titles: &DialogTitles) -> (r: Option<
    (String, String),
>)
    ensures
        opt_pair_view(r) == resolve_spec(url@, gacha@, dialog_title(*titles)),
{
    let (base_url, params) = pares_url(url);
    match news_url(url, &base_url, &params) {
        Some(x) => Some(x),
        None => general_url(url, &base_url, &params, gacha, titles),
    }
}

/// A request to show `api_url` in the web view, under `title`, for the link `orig_url`.
pub struct WebviewRequest {
    pub api_url: String,
    pub title: String,
    pub orig_url: String,
}

/// Whether links are to be opened in game at all: in the Japanese edition
/// only when the user asked for it.
pub open spec fn opens_in_game(region: Region, open_external_link_with_hachimi: bool) -> bool {
    !(region == Region::Japan && !open_external_link_with_hachimi)
}

/// What the game does with the link `url`: the web view request when a
/// handler takes it (and links open in game), otherwise nothing, and the
/// game opens it as it would.
pub fn open(
    url: &String,
    region: Region,
    open_external_link_with_hachimi: bool,
    gacha: &GachaUrlMap,
    titles: &DialogTitles,
) -> (r: Option<WebviewRequest>)
    ensures
        match r {
            Some(req) => opens_in_game(region, open_external_link_with_hachimi) && resolve_spec(
                url@,
                gacha@,
                dialog_title(*titles),
            ) == Some((req.api_url@, req.title@)) && req.orig_url@ == url@,
            None => !opens_in_game(region, open_external_link_with_hachimi) || resolve_spec(
                url@,
                gacha@,
                dialog_title(*titles),
            ) is None,
        },
        region != Region::Japan ==> (r is Some <==> resolve_spec(
            url@,
            gacha@,
            dialog_title(*titles),
        ) is Some),
{
    if region == Region::Japan && !open_external_link_with_hachimi {
        return None;
    }
    match resolve_url(url, gacha, titles) {
        Some((api_url, t)) => Some(WebviewRequest { api_url, title: t, orig_url: url.clone() }),
        None => None,
    }
}

/// The text of a game string, given its UTF-16 units.
pub fn il2cppstring_as_string(units: &[u16]) -> (r: String)
    ensures
        r@ == utf16_decode_lossy(units@),
{
    utf16_to_string(units)
}

/// Registers `gacha_id` as the gacha that the link with UTF-16 text `url` shows.
pub fn add_gacha_url(gacha: &mut GachaUrlMap, url: &[u16], gacha_id: i32)
    ensures
        final(gacha)@ == old(gacha)@.insert(utf16_decode_lossy(url@), gacha_id),
{
    let url_string = il2cppstring_as_string(url);
    gacha.insert(url_string, gacha_id);
}

proof fn lemma_split_on_no_sep(s: Seq<char>, sep: char)
    requires
        forall|i: int| 0 <= i < s.len() ==> s[i] != sep,
    ensures
        split_on(s, sep) == seq![s],
    decreases s.len(),
{
    if s.len() > 0 {
        lemma_split_on_no_sep(s.drop_last(), sep);
        assert(s.drop_last().push(s.last()) =~= s);
        assert(split_on(s, sep) =~= seq![s]);
    } else {
        assert(s =~= Seq::<char>::empty());
    }
}

proof fn lemma_split_on_concat(a: Seq<char>, b: Seq<char>, sep: char)
    ensures
        split_on(a + seq![sep] + b, sep) == split_on(a, sep) + split_on(b, sep),
    decreases b.len(),
{
    let s = a + seq![sep] + b;
    if b.len() == 0 {
        assert(s.drop_last() =~= a);
        assert(split_on(b, sep) =~= seq![Seq::<char>::empty()]);
        assert(split_on(s, sep) =~= split_on(a, sep) + split_on(b, sep));
    } else {
        lemma_split_on_concat(a, b.drop_last(), sep);
        assert(s.drop_last() =~= a + seq![sep] + b.drop_last());
        lemma_split_on_len(b.drop_last(), sep);
        assert(split_on(s, sep) =~= split_on(a, sep) + split_on(b, sep));
    }
}

proof fn lemma_query_pairs_concat(p1: Seq<Seq<char>>, p2: Seq<Seq<char>>)
    ensures
        query_pairs(p1 + p2) == query_pairs(p1) + query_pairs(p2),
    decreases p2.len(),
{
    if p2.len() == 0 {
        assert(p1 + p2 =~= p1);
        assert(query_pairs(p1) + query_pairs(p2) =~= query_pairs(p1));
    } else {
        lemma_query_pairs_concat(p1, p2.drop_last());
        assert((p1 + p2).drop_last() =~= p1 + p2.drop_last());
        assert(query_pairs(p1 + p2) =~= query_pairs(p1) + query_pairs(p2));
    }
}

proof fn lemma_query_pairs_single(t: Seq<char>)
    ensures
        query_pairs(seq![t]) == match split_once(t, '=') {
            Some(kv) => seq![kv],
            None => Seq::empty(),
        },
{
    let e = Seq::<Seq<char>>::empty();
    assert(seq![t].drop_last() =~= e);
    assert(query_pairs(e) == Seq::<(Seq<char>, Seq<char>)>::empty());
    match split_once(t, '=') {
        Some(kv) => {
            assert(Seq::<(Seq<char>, Seq<char>)>::empty().push(kv) =~= seq![kv]);
        },
        None => {},
    }
}

proof fn lemma_map_of_pairs2(a: (Seq<char>, Seq<char>), b: (Seq<char>, Seq<char>))
    ensures
        map_of(seq![a]) == map![a.0 => a.1],
        map_of(seq![a, b]) == map![a.0 => a.1].insert(b.0, b.1),
{
    let e = Seq::<(Seq<char>, Seq<char>)>::empty();
    assert(seq![a].drop_last() =~= e);
    assert(map_of(e) == Map::<Seq<char>, Seq<char>>::empty());
    assert(map_of(seq![a]) =~= map![a.0 => a.1]);
    assert(seq![a, b].drop_last() =~= seq![a]);
}

/// The text `name=value`.
pub open spec fn param_text(name: Seq<char>, value: Seq<char>) -> Seq<char> {
    name + seq!['='] + value
}

/// A name that can stand in a query (no `=` nor `&` in it).
pub open spec fn plain_name(name: Seq<char>) -> bool {
    forall|i: int| 0 <= i < name.len() ==> name[i] != '=' && name[i] != '&'
}

/// A value that can stand in a query (no `&` in it).
pub open spec fn plain_value(value: Seq<char>) -> bool {
    forall|i: int| 0 <= i < value.len() ==> value[i] != '&'
}

proof fn lemma_param_pieces(name: Seq<char>, value: Seq<char>)
    requires
        plain_name(name),
        plain_value(value),
    ensures
        split_on(param_text(name, value), '&') == seq![param_text(name, value)],
        split_once(param_text(name, value), '=') == Some((name, value)),
{
    let t = param_text(name, value);
    lemma_split_on_no_sep(t, '&');
    assert(is_first_index(t, '=', name.len() as int));
    lemma_index_of_is(t, '=', name.len() as int);
    assert(t.take(name.len() as int) =~= name);
    assert(t.skip(name.len() as int + 1) =~= value);
}

proof fn lemma_url_parts(base: Seq<char>, q: Seq<char>)
    requires
        forall|i: int| 0 <= i < base.len() ==> base[i] != '?',
    ensures
        url_base(base + seq!['?'] + q) == base,
        url_params(base + seq!['?'] + q) == query_params(q),
{
    let u = base + seq!['?'] + q;
    assert(is_first_index(u, '?', base.len() as int));
    lemma_index_of_is(u, '?', base.len() as int);
    assert(u.take(base.len() as int) =~= base);
    assert(u.skip(base.len() as int + 1) =~= q);
}

/// Writing a parameter into a link and reading the link back: the link
/// `base?name=value` has base `base`, and its only parameter is `name`,
/// with value `value`.
pub proof fn law_param_round_trip(base: Seq<char>, name: Seq<char>, value: Seq<char>)
    requires
        forall|i: int| 0 <= i < base.len() ==> base[i] != '?',
        plain_name(name),
        plain_value(value),
    ensures
        url_base(base + seq!['?'] + param_text(name, value)) == base,
        url_params(base + seq!['?'] + param_text(name, value)) == map![name => value],
{
    let t = param_text(name, value);
    lemma_url_parts(base, t);
    lemma_param_pieces(name, value);
    let kv = (name, value);
    lemma_query_pairs_single(t);
    lemma_map_of_pairs2(kv, kv);
}

#[verifier::spinoff_prover]
#[verifier::rlimit(50)]
/// A parameter given twice keeps the value given last, as a `HashMap`
/// filled from the query in order does.
pub proof fn law_repeated_param_last_wins(
    base: Seq<char>,
    name: Seq<char>,
    first: Seq<char>,
    last: Seq<char>,
)
    requires
        forall|i: int| 0 <= i < base.len() ==> base[i] != '?',
        plain_name(name),
        plain_value(first),
        plain_value(last),
    ensures
        url_params(
            base + seq!['?'] + (param_text(name, first) + seq!['&'] + param_text(name, last)),
        ) == map![name => last],
{
    let t1 = param_text(name, first);
    let t2 = param_text(name, last);
    let q = t1 + seq!['&'] + t2;
    lemma_url_parts(base, q);
    lemma_split_on_concat(t1, t2, '&');
    lemma_param_pieces(name, first);
    lemma_param_pieces(name, last);
    assert(split_on(q, '&') =~= seq![t1, t2]);
    assert(seq![t1, t2] =~= seq![t1] + seq![t2]);
    lemma_query_pairs_concat(seq![t1], seq![t2]);
    lemma_query_pairs_single(t1);
    lemma_query_pairs_single(t2);
    let ps = seq![(name, first), (name, last)];
    assert(seq![(name, first)] + seq![(name, last)] =~= ps);
    lemma_map_of_pairs2((name, first), (name, last));
    assert(map![name => first].insert(name, last) =~= map![name => last]);
}

proof fn lemma_site_base_not_news(base: Seq<char>)
    requires
        starts_with(base, GAME_SITE_URL@),
    ensures
        news_url_spec(base) is None,
{
    reveal_strlit("https://www.games.umamusume.jp/#/");
    reveal_strlit("https://dmg.umamusume.jp/news");
    assert(base.len() >= 33);
    assert(NEWS_PAGE_URL@.len() == 29);
}

/// The news page opens the in-game news list under "Notice", whatever its
/// query, the registered gachas and the title.
pub proof fn law_news_page_opens_news_list(
    url: Seq<char>,
    gacha: Map<Seq<char>, i32>,
    title: Seq<char>,
)
    requires
        url_base(url) == NEWS_PAGE_URL@,
    ensures
        resolve_spec(url, gacha, title) == Some((NEWS_API_URL@, NEWS_TITLE@)),
{
}

/// A page of the game's web site other than a gacha page opens at the same
/// path of the in-game site, under the given title.
pub proof fn law_site_page_opens_in_game(url: Seq<char>, gacha: Map<Seq<char>, i32>, title: Seq<char>)
    requires
        starts_with(url_base(url), GAME_SITE_URL@),
        url_type(url, url_base(url)) != GACHA_PAGE@,
    ensures
        resolve_spec(url, gacha, title) == Some(
            (BASE_API_URL@ + url.skip(GAME_SITE_URL@.len() as int), title),
        ),
{
    lemma_site_base_not_news(url_base(url));
}

/// A gacha page that the game never registered is left to the game.
pub proof fn law_unregistered_gacha_left_to_game(
    url: Seq<char>,
    gacha: Map<Seq<char>, i32>,
    title: Seq<char>,
)
    requires
        starts_with(url_base(url), GAME_SITE_URL@),
        url_type(url, url_base(url)) == GACHA_PAGE@,
        !gacha.contains_key(url),
    ensures
        resolve_spec(url, gacha, title) is None,
{
    lemma_site_base_not_news(url_base(url));
}

/// Once the game registers a gacha link under an id (`add_gacha_url`), the
/// link opens at the in-game gacha page of that id, when it carries the
/// parameters `v`, `r` and `p`; the registration of one link leaves every
/// other link as it was.
pub proof fn law_registered_gacha_opens(
    url: Seq<char>,
    gacha: Map<Seq<char>, i32>,
    gacha_id: i32,
    title: Seq<char>,
    other: Seq<char>,
)
    requires
        starts_with(url_base(url), GAME_SITE_URL@),
        url_type(url, url_base(url)) == GACHA_PAGE@,
        url_params(url).contains_key("v"@),
        url_params(url).contains_key("r"@),
        url_params(url).contains_key("p"@),
        other != url,
    ensures
        resolve_spec(url, gacha.insert(url, gacha_id), title) == Some(
            (
                gacha_api_url(
                    url_params(url)["v"@],
                    url_params(url)["r"@],
                    gacha_id,
                    url_params(url)["p"@],
                ),
                title,
            ),
        ),
        resolve_spec(other, gacha.insert(url, gacha_id), title) == resolve_spec(
            other,
            gacha,
            title,
        ),
{
    lemma_site_base_not_news(url_base(url));
    assert(gacha.insert(url, gacha_id).contains_key(other) == gacha.contains_key(other));
    if gacha.contains_key(other) {
        assert(gacha.insert(url, gacha_id)[other] == gacha[other]);
    }
}

/// Only the Japanese edition asks the user before opening links in game:
/// every other edition opens them whatever the option says, and the
/// Japanese one exactly when the option is on.
pub proof fn law_only_japan_needs_the_option(region: Region, open_external_link_with_hachimi: bool)
    ensures
        region != Region::Japan ==> opens_in_game(region, open_external_link_with_hachimi),
        opens_in_game(Region::Japan, open_external_link_with_hachimi)
            == open_external_link_with_hachimi,
{
}

} // verus!
