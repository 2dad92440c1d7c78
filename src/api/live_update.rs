//! The update resolution engine: which release a client should move to, and
//! where its package, unlock key and checksum are.
//!
//! The engine decides; fetching is left to its caller. A request goes:
//! resolve the repository with [`resolve_repository`], fetch its releases,
//! ask [`update_fetches`] which attachments to read, read them, and hand
//! everything to [`get_update_info`]. A list of releases that could not be
//! fetched is handed over empty; an attachment that could not be read, as
//! `None`.

use vstd::prelude::*;

use crate::identity::{repo_of, resolve_repository, well_formed_id, RepoAlias};
use crate::text::{has_suffix, seq_lt, text_ends_with, text_eq, text_lt, trim_of, trim_text};

verus! {

/// A file attached to a release.
#[derive(Clone, Debug, PartialEq, Eq)]
pub struct Asset {
    pub name: String,
    pub browser_download_url: String,
}

/// A tagged release of a repository, as the release feed lists it.
#[derive(Clone, Debug, PartialEq, Eq)]
pub struct Release {
    pub tag_name: String,
    pub name: Option<String>,
    pub body: Option<String>,
    pub prerelease: bool,
    pub assets: Vec<Asset>,
}

/// What a client should install: a version, the package's address, and the
/// key and checksum that came with it, if any.
#[derive(Clone, Debug, PartialEq, Eq)]
pub struct UpdateInfo {
    pub version: String,
    pub url: String,
    pub session_key: Option<String>,
    pub checksum: Option<String>,
}

/// What a client reports about the app it runs.
#[derive(Clone, Debug, PartialEq, Eq)]
pub struct AppInfos {
    pub platform: String,
    pub device_id: String,
    pub app_id: String,
    pub custom_id: Option<String>,
    pub plugin_version: String,
    pub version_build: String,
    pub version_code: String,
    pub version_name: String,
    pub version_os: String,
    pub is_emulator: bool,
    pub is_prod: bool,
}

/// The answer given when no update applies.
#[derive(Clone, Debug, PartialEq, Eq)]
pub struct ErrorResponse {
    pub message: String,
    pub error: String,
}

/// An [`UpdateInfo`] as plain text values.
pub struct UpdateView {
    pub version: Seq<char>,
    pub url: Seq<char>,
    pub session_key: Option<Seq<char>>,
    pub checksum: Option<Seq<char>>,
}

/// The text held, if any.
pub open spec fn text_of(o: Option<String>) -> Option<Seq<char>> {
    match o {
        Some(s) => Some(s@),
        None => None,
    }
}

impl View for UpdateInfo {
    type V = UpdateView;

    open spec fn view(&self) -> UpdateView {
        UpdateView {
            version: self.version@,
            url: self.url@,
            session_key: text_of(self.session_key),
            checksum: text_of(self.checksum),
        }
    }
}

/// An optional [`UpdateInfo`] as plain text values.
pub open spec fn update_view_of(o: Option<UpdateInfo>) -> Option<UpdateView> {
    match o {
        Some(u) => Some(u@),
        None => None,
    }
}

/// The texts read for the attachments, one entry per attachment.
pub open spec fn texts_of(v: Seq<Option<String>>) -> Seq<Option<Seq<char>>> {
    v.map_values(|o: Option<String>| text_of(o))
}

/// Each text read, trimmed.
pub open spec fn trim_all(t: Seq<Option<Seq<char>>>) -> Seq<Option<Seq<char>>> {
    t.map_values(
        |o: Option<Seq<char>>|
            match o {
                Some(x) => Some(trim_of(x)),
                None => None,
            },
    )
}

/// The text read for attachment `i`; `None` past the end.
pub open spec fn text_at(t: Seq<Option<Seq<char>>>, i: int) -> Option<Seq<char>> {
    if 0 <= i < t.len() {
        t[i]
    } else {
        None
    }
}

/// The version reported when no package is found.
pub open spec fn default_version() -> Seq<char> {
    "0.0.1"@
}

/// The package address reported when no package is found.
pub open spec fn fallback_url() -> Seq<char> {
    "https://github.com/Sinotrade/scone/releases/download/0.0.1s/yvictor.scone_0.0.1.zip"@
}

/// The answer when no release supplied anything.
pub open spec fn default_update() -> UpdateView {
    UpdateView {
        version: default_version(),
        url: fallback_url(),
        session_key: None,
        checksum: None,
    }
}

/// The attachment holds the unlock key.
pub open spec fn is_key_asset(a: Asset) -> bool {
    a.name@ == "key"@
}

/// The attachment is a package.
pub open spec fn is_package_asset(a: Asset) -> bool {
    has_suffix(a.name@, ".zip"@)
}

/// The name of the checksum file of package `name`: its `.zip` suffix
/// replaced by `.checksum`.
pub open spec fn checksum_name(name: Seq<char>) -> Seq<char> {
    name.subrange(0, name.len() - ".zip"@.len()) + ".checksum"@
}

/// Attachment `i` is called `name`.
pub open spec fn named_at(assets: Seq<Asset>, name: Seq<char>, i: int) -> bool {
    0 <= i < assets.len() && assets[i].name@ == name
}

/// Position of the first attachment called `name`.
pub open spec fn first_named(assets: Seq<Asset>, name: Seq<char>) -> Option<int> {
    if exists|i: int| named_at(assets, name, i) {
        Some(
            choose|i: int|
                named_at(assets, name, i) && forall|j: int|
                    0 <= j < i ==> !named_at(assets, name, j),
        )
    } else {
        None
    }
}

/// Position of the checksum file that goes with attachment `i`, if any.
pub open spec fn checksum_of(assets: Seq<Asset>, i: int) -> Option<int> {
    first_named(assets, checksum_name(assets[i].name@))
}

/// Address of the text to read for attachment `i`: the key file itself, or
/// the checksum file of a package; `None` where nothing is read.
pub open spec fn fetch_target(assets: Seq<Asset>, i: int) -> Option<Seq<char>> {
    if is_key_asset(assets[i]) {
        Some(assets[i].browser_download_url@)
    } else if is_package_asset(assets[i]) {
        match checksum_of(assets, i) {
            Some(j) => Some(assets[j].browser_download_url@),
            None => None,
        }
    } else {
        None
    }
}

/// Position of the last package among the first `n` attachments.
pub open spec fn last_package(assets: Seq<Asset>, n: int) -> Option<int>
    decreases n,
{
    if n <= 0 {
        None
    } else if is_package_asset(assets[n - 1]) {
        Some(n - 1)
    } else {
        last_package(assets, n - 1)
    }
}

/// The last key read among the first `n` attachments.
pub open spec fn last_key(assets: Seq<Asset>, texts: Seq<Option<Seq<char>>>, n: int) -> Option<
    Seq<char>,
>
    decreases n,
{
    if n <= 0 {
        None
    } else if is_key_asset(assets[n - 1]) && text_at(texts, n - 1) is Some {
        text_at(texts, n - 1)
    } else {
        last_key(assets, texts, n - 1)
    }
}

/// The checksum of the package at `p`: the text read for it when a checksum
/// file stands beside it, `None` otherwise.
pub open spec fn package_checksum(
    assets: Seq<Asset>,
    texts: Seq<Option<Seq<char>>>,
    p: Option<int>,
) -> Option<Seq<char>> {
    match p {
        Some(q) => if checksum_of(assets, q) is Some {
            text_at(texts, q)
        } else {
            None
        },
        None => None,
    }
}

/// What a candidate release gives, with `texts` the trimmed texts read for
/// its attachments: the last package sets version and address and brings
/// its own checksum, if one was read; the last key read sets the key.
pub open spec fn classified(release: Release, texts: Seq<Option<Seq<char>>>) -> UpdateView {
    let assets = release.assets@;
    let n = assets.len() as int;
    UpdateView {
        version: match last_package(assets, n) {
            Some(_) => release.tag_name@,
            None => default_version(),
        },
        url: match last_package(assets, n) {
            Some(p) => assets[p].browser_download_url@,
            None => fallback_url(),
        },
        session_key: last_key(assets, texts, n),
        checksum: package_checksum(assets, texts, last_package(assets, n)),
    }
}

/// A release tagged `tag` is an update for a client that runs `current`.
pub open spec fn is_newer(current: Seq<char>, tag: Seq<char>) -> bool {
    current == "builtin"@ || seq_lt(current, tag)
}

/// The first release of the feed is the candidate for this client.
pub open spec fn has_candidate(app: AppInfos, releases: Seq<Release>) -> bool {
    releases.len() > 0 && is_newer(app.version_name@, releases[0].tag_name@)
}

/// The answer to `app`, given the alias table, the releases of the feed in
/// its order, and the texts read for the attachments of the first release.
pub open spec fn resolved(
    app: AppInfos,
    aliases: Seq<RepoAlias>,
    releases: Seq<Release>,
    fetched: Seq<Option<Seq<char>>>,
) -> Option<UpdateView> {
    if repo_of(aliases, app.app_id@) is None {
        None
    } else if releases.len() == 0 {
        Some(default_update())
    } else if is_newer(app.version_name@, releases[0].tag_name@) {
        Some(classified(releases[0], trim_all(fetched)))
    } else {
        None
    }
}

/// The addresses to read for the attachments of a release, one entry per
/// attachment.
pub open spec fn targets_of(release: Release) -> Seq<Option<Seq<char>>> {
    Seq::new(release.assets@.len(), |i: int| fetch_target(release.assets@, i))
}

impl UpdateInfo {
    pub fn new(
        version: &str,
        url: &str,
        session_key: Option<String>,
        checksum: Option<String>,
    ) -> (r: Self)
        ensures
            r.version@ == version@,
            r.url@ == url@,
            r.session_key == session_key,
            r.checksum == checksum,
    {
        UpdateInfo {
            version: String::from_str(version),
            url: String::from_str(url),
            session_key,
            checksum,
        }
    }
}

/// The update reported when no release supplied anything.
pub fn fallback_update() -> (r: UpdateInfo)
    ensures
        r@ == default_update(),
{
    UpdateInfo::new(
        "0.0.1",
        "https://github.com/Sinotrade/scone/releases/download/0.0.1s/yvictor.scone_0.0.1.zip",
        None,
        None,
    )
}

/// The answer given to a client when no update applies.
pub fn no_update_response() -> (r: ErrorResponse)
    ensures
        r.message@ == "Error version not found"@,
        r.error@ == "No update available"@,
{
    ErrorResponse {
        message: String::from_str("Error version not found"),
        error: String::from_str("No update available"),
    }
}

/// Whether a release tagged `tag` is an update for a client that runs
/// `current`: the client reports `builtin`, or its version comes first in
/// plain text order. Text order is not the order of semantic versions:
/// `9.0.0` comes after `10.0.0`.
pub fn is_newer_version(current: &str, tag: &str) -> (r: bool)
    ensures
        r == is_newer(current@, tag@),
{
    text_eq(current, "builtin") || text_lt(current, tag)
}

/// Position of the first attachment called `name`.
fn find_named(assets: &Vec<Asset>, name: &str) -> (r: Option<usize>)
    ensures
        match r {
            Some(j) => j < assets@.len() && first_named(assets@, name@) == Some(j as int),
            None => first_named(assets@, name@) is None,
        },
{
    let mut i: usize = 0;
    while i < assets.len()
        invariant
            i <= assets@.len(),
            forall|j: int| 0 <= j < i ==> !named_at(assets@, name@, j),
        decreases assets.len() - i,
    {
        if text_eq(assets[i].name.as_str(), name) {
            assert(named_at(assets@, name@, i as int));
            let ghost k = choose|k: int|
                named_at(assets@, name@, k) && forall|j: int|
                    0 <= j < k ==> !named_at(assets@, name@, j);
            assert(k == i) by {
                if k < i {
                    assert(!named_at(assets@, name@, k));
                }
                if k > i {
                    assert(!named_at(assets@, name@, i as int));
                }
            }
            return Some(i);
        }
        i = i + 1;
    }
    None
}

/// Whether an attachment called `name` is a package.
pub fn is_package_name(name: &str) -> (r: bool)
    ensures
        r == has_suffix(name@, ".zip"@),
{
    text_ends_with(name, ".zip")
}

/// The name of the checksum file of package `name`: its `.zip` suffix
/// replaced by `.checksum`.
pub fn checksum_file_name(name: &str) -> (r: String)
    requires
        has_suffix(name@, ".zip"@),
    ensures
        r@ == checksum_name(name@),
{
    let n = name.unicode_len();
    let m = ".zip".unicode_len();
    let mut r = String::from_str(name.substring_char(0, n - m));
    r.append(".checksum");
    r
}

/// Position of the checksum file that goes with attachment `i`.
fn find_checksum(assets: &Vec<Asset>, i: usize) -> (r: Option<usize>)
    requires
        i < assets@.len(),
        is_package_asset(assets@[i as int]),
    ensures
        match r {
            Some(j) => j < assets@.len() && checksum_of(assets@, i as int) == Some(j as int),
            None => checksum_of(assets@, i as int) is None,
        },
{
    let target = checksum_file_name(assets[i].name.as_str());
    find_named(assets, target.as_str())
}

/// The addresses of the texts to read for the attachments of `release`, one
/// entry per attachment: the key file itself, the checksum file of each
/// package that has one, nothing for the others.
pub fn fetch_targets(release: &Release) -> (r: Vec<Option<String>>)
    ensures
        texts_of(r@) == targets_of(*release),
{
    let assets = &release.assets;
    let mut r: Vec<Option<String>> = Vec::new();
    let mut i: usize = 0;
    while i < assets.len()
        invariant
            assets == &release.assets,
            i <= assets@.len(),
            r@.len() == i,
            forall|k: int| 0 <= k < i ==> text_of(#[trigger] r@[k]) == fetch_target(assets@, k),
        decreases assets.len() - i,
    {
        let a = &assets[i];
        if text_eq(a.name.as_str(), "key") {
            r.push(Some(a.browser_download_url.clone()));
        } else if is_package_name(a.name.as_str()) {
            match find_checksum(assets, i) {
                Some(j) => r.push(Some(assets[j].browser_download_url.clone())),
                None => r.push(None),
            }
        } else {
            r.push(None);
        }
        i = i + 1;
    }
    assert(texts_of(r@) =~= targets_of(*release));
    r
}

/// What a candidate release gives, with `texts` the trimmed texts read for
/// its attachments (entry `i` for attachment `i`; a missing entry or `None`
/// means nothing was read).
pub fn classify_assets(release: &Release, texts: &Vec<Option<String>>) -> (r: UpdateInfo)
    ensures
        r@ == classified(*release, texts_of(texts@)),
{
    let assets = &release.assets;
    let ghost t = texts_of(texts@);
    let defaults = fallback_update();
    let mut version = defaults.version;
    let mut url = defaults.url;
    let mut session_key: Option<String> = None;
    let mut checksum: Option<String> = None;
    let mut i: usize = 0;
    while i < assets.len()
        invariant
            assets == &release.assets,
            t == texts_of(texts@),
            i <= assets@.len(),
            version@ == match last_package(assets@, i as int) {
                Some(_) => release.tag_name@,
                None => default_version(),
            },
            url@ == match last_package(assets@, i as int) {
                Some(p) => assets@[p].browser_download_url@,
                None => fallback_url(),
            },
            text_of(session_key) == last_key(assets@, t, i as int),
            text_of(checksum) == package_checksum(assets@, t, last_package(assets@, i as int)),
        decreases assets.len() - i,
    {
        let a = &assets[i];
        let text: Option<&String> = if i < texts.len() {
            match &texts[i] {
                Some(s) => Some(s),
                None => None,
            }
        } else {
            None
        };
        assert(text_at(t, i as int) == match text {
            Some(s) => Some(s@),
            None => None::<Seq<char>>,
        });
        if text_eq(a.name.as_str(), "key") {
            assert(!has_suffix(a.name@, ".zip"@)) by {
                reveal_strlit("key");
                reveal_strlit(".zip");
                if has_suffix(a.name@, ".zip"@) {
                    assert(a.name@[2] == ".zip"@[1]);
                }
            }
            if let Some(s) = text {
                session_key = Some(s.clone());
            }
        } else if is_package_name(a.name.as_str()) {
            version = release.tag_name.clone();
            url = a.browser_download_url.clone();
            checksum = None;
            if let Some(_) = find_checksum(assets, i) {
                if let Some(s) = text {
                    checksum = Some(s.clone());
                }
            }
        }
        i = i + 1;
    }
    UpdateInfo { version, url, session_key, checksum }
}

/// Each text read, trimmed.
pub fn trim_fetched(fetched: &Vec<Option<String>>) -> (r: Vec<Option<String>>)
    ensures
        texts_of(r@) == trim_all(texts_of(fetched@)),
{
    let mut r: Vec<Option<String>> = Vec::new();
    let mut i: usize = 0;
    while i < fetched.len()
        invariant
            i <= fetched@.len(),
            r@.len() == i,
            forall|k: int|
                0 <= k < i ==> text_of(#[trigger] r@[k]) == trim_all(texts_of(fetched@))[k],
        decreases fetched.len() - i,
    {
        match &fetched[i] {
            Some(s) => r.push(Some(trim_text(s.as_str()))),
            None => r.push(None),
        }
        i = i + 1;
    }
    assert(texts_of(r@) =~= trim_all(texts_of(fetched@)));
    r
}

/// The addresses to read before [`get_update_info`] can answer `app_infos`:
/// those of the attachments of the first release when it is an update for
/// the client, none otherwise.
pub fn update_fetches(app_infos: &AppInfos, releases: &Vec<Release>) -> (r: Vec<Option<String>>)
    ensures
        has_candidate(*app_infos, releases@) ==> texts_of(r@) == targets_of(releases@[0]),
        !has_candidate(*app_infos, releases@) ==> r@.len() == 0,
{
    if releases.len() > 0 && is_newer_version(
        app_infos.version_name.as_str(),
        releases[0].tag_name.as_str(),
    ) {
        fetch_targets(&releases[0])
    } else {
        Vec::new()
    }
}

/// Decides what `app_infos` should install, given the alias table, the
/// releases of its repository in feed order (empty when the feed could not
/// be read), and the texts read at the addresses that [`update_fetches`]
/// gave (`None` where nothing was read).
///
/// `None` when the identifier names no repository, or when the first
/// release is no update for the client. Otherwise the first release, when
/// it is an update, gives version, address, key and checksum; with no
/// release at all the defaults are returned.
pub fn get_update_info(
    app_infos: &AppInfos,
    aliases: &Vec<RepoAlias>,
    releases: &Vec<Release>,
    fetched: &Vec<Option<String>>,
) -> (r: Option<UpdateInfo>)
    ensures
        update_view_of(r) == resolved(*app_infos, aliases@, releases@, texts_of(fetched@)),
{
    match resolve_repository(app_infos.app_id.as_str(), aliases) {
        Err(_) => None,
        Ok(_) => {
            if releases.len() == 0 {
                Some(fallback_update())
            } else if is_newer_version(
                app_infos.version_name.as_str(),
                releases[0].tag_name.as_str(),
            ) {
                let trimmed = trim_fetched(fetched);
                Some(classify_assets(&releases[0], &trimmed))
            } else {
                None
            }
        },
    }
}

proof fn lemma_last_package(assets: Seq<Asset>, n: int)
    requires
        0 <= n <= assets.len(),
    ensures
        match last_package(assets, n) {
            Some(p) => 0 <= p < n && is_package_asset(assets[p]),
            None => forall|q: int| 0 <= q < n ==> !is_package_asset(#[trigger] assets[q]),
        },
    decreases n,
{
    if n > 0 {
        lemma_last_package(assets, n - 1);
    }
}

proof fn lemma_no_key(assets: Seq<Asset>, texts: Seq<Option<Seq<char>>>, n: int)
    requires
        0 <= n <= assets.len(),
        forall|q: int| 0 <= q < n ==> !is_key_asset(#[trigger] assets[q]),
    ensures
        last_key(assets, texts, n) is None,
    decreases n,
{
    if n > 0 {
        lemma_no_key(assets, texts, n - 1);
    }
}

/// An identifier that is not two non-empty segments joined by a single `.`
/// gets no update, whatever the feed holds.
pub proof fn lemma_malformed_id_gets_nothing(
    app: AppInfos,
    aliases: Seq<RepoAlias>,
    releases: Seq<Release>,
    fetched: Seq<Option<Seq<char>>>,
)
    requires
        !well_formed_id(app.app_id@),
    ensures
        resolved(app, aliases, releases, fetched) is None,
{
}

/// A client that reports `builtin` gets the first release of the feed when
/// that release has a package: its tag and the address of one of its
/// packages, never the defaults.
pub proof fn lemma_builtin_gets_first_release(
    app: AppInfos,
    aliases: Seq<RepoAlias>,
    releases: Seq<Release>,
    fetched: Seq<Option<Seq<char>>>,
)
    requires
        well_formed_id(app.app_id@),
        app.version_name@ == "builtin"@,
        releases.len() > 0,
        exists|i: int|
            0 <= i < releases[0].assets@.len() && is_package_asset(
                #[trigger] releases[0].assets@[i],
            ),
    ensures
        resolved(app, aliases, releases, fetched) matches Some(u) && u.version
            == releases[0].tag_name@ && exists|p: int|
            0 <= p < releases[0].assets@.len() && is_package_asset(
                #[trigger] releases[0].assets@[p],
            ) && u.url == releases[0].assets@[p].browser_download_url@,
{
    let assets = releases[0].assets@;
    lemma_last_package(assets, assets.len() as int);
    let p = last_package(assets, assets.len() as int)->0;
    assert(0 <= p < assets.len() && is_package_asset(assets[p]));
}

/// A client whose version is not before the tag of the first release in
/// plain text order gets no update, whatever later releases hold: only the
/// first release is ever weighed.
pub proof fn lemma_not_older_gets_nothing(
    app: AppInfos,
    aliases: Seq<RepoAlias>,
    releases: Seq<Release>,
    fetched: Seq<Option<Seq<char>>>,
)
    requires
        releases.len() > 0,
        app.version_name@ != "builtin"@,
        !seq_lt(app.version_name@, releases[0].tag_name@),
    ensures
        resolved(app, aliases, releases, fetched) is None,
{
}

/// Without a `key` attachment in the candidate release no session key is
/// reported, and an update is still given.
pub proof fn lemma_no_key_no_session_key(
    app: AppInfos,
    aliases: Seq<RepoAlias>,
    releases: Seq<Release>,
    fetched: Seq<Option<Seq<char>>>,
)
    requires
        releases.len() > 0 ==> forall|i: int|
            0 <= i < releases[0].assets@.len() ==> !is_key_asset(
                #[trigger] releases[0].assets@[i],
            ),
    ensures
        resolved(app, aliases, releases, fetched) matches Some(u) ==> u.session_key is None,
        well_formed_id(app.app_id@) && (releases.len() == 0 || has_candidate(app, releases))
            ==> resolved(app, aliases, releases, fetched) is Some,
{
    if releases.len() > 0 {
        let assets = releases[0].assets@;
        lemma_no_key(assets, trim_all(fetched), assets.len() as int);
    }
}

/// When the package of the candidate release has no checksum file beside it,
/// no checksum is reported, and version and address still come from that
/// package.
pub proof fn lemma_no_checksum_file_no_checksum(
    app: AppInfos,
    aliases: Seq<RepoAlias>,
    releases: Seq<Release>,
    fetched: Seq<Option<Seq<char>>>,
    p: int,
)
    requires
        well_formed_id(app.app_id@),
        has_candidate(app, releases),
        last_package(releases[0].assets@, releases[0].assets@.len() as int) == Some(p),
        checksum_of(releases[0].assets@, p) is None,
    ensures
        resolved(app, aliases, releases, fetched) matches Some(u) && u.checksum is None
            && u.version == releases[0].tag_name@ && u.url
            == releases[0].assets@[p].browser_download_url@,
{
}

/// The answer depends on the identifier and version that the client reports,
/// the feed and the texts read, and on nothing else: asking twice gives the
/// same answer, and the same addresses to read.
pub proof fn lemma_same_request_same_answer(
    a1: AppInfos,
    a2: AppInfos,
    aliases: Seq<RepoAlias>,
    releases: Seq<Release>,
    fetched: Seq<Option<Seq<char>>>,
)
    requires
        a1.app_id@ == a2.app_id@,
        a1.version_name@ == a2.version_name@,
    ensures
        resolved(a1, aliases, releases, fetched) == resolved(a2, aliases, releases, fetched),
        has_candidate(a1, releases) == has_candidate(a2, releases),
{
}

} // verus!
