//! Addresses: which ones are used, and how they are built.
use crate::error;
use crate::error::{invalid, AppError, AppResult, ErrorView};
use crate::scan;
use crate::scan::{cut_before, show, starts_with};
use crate::text;
use crate::text::{bytes_in, cat, cat3, lowercase, same_text, trim, trim_end_of, trim_start_of};
use vstd::prelude::*;

verus! {

/// The parts of an address, and the whole of it as it is written.
pub struct UrlParts {
    pub scheme: String,
    pub host: Option<String>,
    pub port: Option<u16>,
    pub port_or_default: Option<u16>,
    pub path: String,
    pub query: Option<String>,
    pub fragment: Option<String>,
    pub text: String,
}

/// What [`UrlParts`] holds.
#[verifier::ext_equal]
pub struct UrlView {
    pub scheme: Seq<char>,
    pub host: Option<Seq<char>>,
    pub port: Option<u16>,
    pub port_or_default: Option<u16>,
    pub path: Seq<char>,
    pub query: Option<Seq<char>>,
    pub fragment: Option<Seq<char>>,
    pub text: Seq<char>,
}

impl View for UrlParts {
    type V = UrlView;

    open spec fn view(&self) -> UrlView {
        UrlView {
            scheme: self.scheme@,
            host: text::opt_text(self.host),
            port: self.port,
            port_or_default: self.port_or_default,
            path: self.path@,
            query: text::opt_text(self.query),
            fragment: text::opt_text(self.fragment),
            text: self.text@,
        }
    }
}

/// What an optional address says.
pub open spec fn opt_url(o: Option<UrlParts>) -> Option<UrlView> {
    match o {
        Some(u) => Some(u@),
        None => None,
    }
}

/// The parts of the address that a text is, where it is one.
pub uninterp spec fn parsed_url(s: Seq<char>) -> Option<UrlView>;

/// The address that a reference leads to from a base.
pub uninterp spec fn joined_url(base: Seq<char>, reference: Seq<char>) -> Option<UrlView>;

/// An address with another scheme, as it is written.
pub uninterp spec fn url_with_scheme(s: Seq<char>, scheme: Seq<char>) -> Option<Seq<char>>;

/// An address with another path, as it is written.
pub uninterp spec fn url_with_path(s: Seq<char>, path: Seq<char>) -> Option<Seq<char>>;

/// An address with another query, as it is written.
pub uninterp spec fn url_with_query(s: Seq<char>, query: Seq<char>) -> Option<Seq<char>>;

/// An address with one more pair in its query.
pub uninterp spec fn url_with_pair(s: Seq<char>, key: Seq<char>, value: Seq<char>) -> Option<
    Seq<char>,
>;

/// The pairs of names and values in a query, in their order.
pub uninterp spec fn query_pairs(query: Seq<char>) -> Seq<(Seq<char>, Seq<char>)>;

/// A host of small letters and single dots, which begins and ends with a letter.
pub open spec fn plain_host(host: Seq<char>) -> bool {
    &&& host.len() > 0
    &&& text::is_lower(host[0])
    &&& text::is_lower(host.last())
    &&& forall|i: int| 0 <= i < host.len() ==> text::is_lower(#[trigger] host[i]) || host[i] == '.'
    &&& forall|i: int| 0 <= i < host.len() - 1 ==> !(#[trigger] host[i] == '.' && host[i + 1] == '.')
}

/// No path, or one of small letters, digits and slashes.
pub open spec fn plain_path(path: Seq<char>) -> bool {
    &&& path.len() > 0 ==> path[0] == '/'
    &&& forall|i: int|
        0 <= i < path.len() ==> text::is_lower(#[trigger] path[i]) || text::is_digit(path[i])
            || path[i] == '/'
}

/// An encrypted address with a host and a path.
pub open spec fn address(host: Seq<char>, path: Seq<char>) -> Seq<char> {
    "https://"@ + host + path
}

/// The parts of an encrypted address with a plain host and a plain path. Where no path is written it is
/// a slash.
pub open spec fn address_parts(host: Seq<char>, path: Seq<char>) -> UrlView {
    let path = if path.len() == 0 {
        "/"@
    } else {
        path
    };
    UrlView {
        scheme: "https"@,
        host: Some(host),
        port: None,
        port_or_default: Some(443),
        path,
        query: None,
        fragment: None,
        text: address(host, path),
    }
}

/// `url::Url::parse`: the parts of the address, as the accessors of `Url` give them; nothing where
/// the text is no address. All of it depends on the text alone. Which parts an address has is said of
/// short encrypted ones with a plain host and a plain path.
#[verifier::external_body]
fn parse_url(s: &str) -> (r: Option<UrlParts>)
    ensures
        opt_url(r) == parsed_url(s@),
        forall|host: Seq<char>, path: Seq<char>|
            s@ == #[trigger] address(host, path) && plain_host(host) && plain_path(path)
                && s@.len() < 1000 ==> opt_url(r) == Some(address_parts(host, path)),
{
    url::Url::parse(s).ok().map(|u| UrlParts {
        scheme: u.scheme().to_string(),
        host: u.host_str().map(|h| h.to_string()),
        port: u.port(),
        port_or_default: u.port_or_known_default(),
        path: u.path().to_string(),
        query: u.query().map(|q| q.to_string()),
        fragment: u.fragment().map(|f| f.to_string()),
        text: u.to_string(),
    })
}

/// `url::Url::join`: the address that a reference leads to, in parts; nothing where the base or the
/// result is no address. All of it depends on the two texts alone.
#[verifier::external_body]
fn join_url(base: &str, reference: &str) -> (r: Option<UrlParts>)
    ensures
        opt_url(r) == joined_url(base@, reference@),
{
    url::Url::parse(base).ok().and_then(|b| b.join(reference).ok()).map(|u| UrlParts {
        scheme: u.scheme().to_string(),
        host: u.host_str().map(|h| h.to_string()),
        port: u.port(),
        port_or_default: u.port_or_known_default(),
        path: u.path().to_string(),
        query: u.query().map(|q| q.to_string()),
        fragment: u.fragment().map(|f| f.to_string()),
        text: u.to_string(),
    })
}

/// The bytes that an address may take, for every position in it to be counted.
pub const MOST_URL_BYTES: u64 = 4_294_967_295;

/// The bytes that separators and prefixes may add to an address that is changed.
pub const URL_SLACK_BYTES: u64 = 16;

/// An address takes no more bytes than may be counted once so many bytes are put into it, each of which
/// may be written as three.
pub open spec fn has_room(u: UrlView, added: nat) -> bool {
    text::byte_len(u.text) + 3 * added + URL_SLACK_BYTES <= MOST_URL_BYTES
}

/// A text that is no address, or an address that so many bytes can be put into.
pub open spec fn can_grow(s: Seq<char>, added: nat) -> bool {
    parsed_url(s) matches Some(u) ==> has_room(u, added)
}

/// Whether so many bytes can be put into what a text is as an address.
fn may_grow(s: &str, added: u128) -> (r: bool)
    ensures
        r == can_grow(s@, added as nat),
{
    match parse_url(s) {
        Some(u) => {
            let size: u128 = bytes_in(u.text.as_str());
            let most: u128 = MOST_URL_BYTES as u128;
            size <= most && added <= most && size + 3 * added + URL_SLACK_BYTES as u128 <= most
        },
        None => true,
    }
}

/// `url::Url::set_scheme`: the address as it is written then; nothing where the text is no address or
/// cannot have that scheme. It depends on the two texts alone. The positions in the address have to fit
/// 32 bits.
#[verifier::external_body]
fn with_scheme(s: &str, scheme: &str) -> (r: Option<String>)
    requires
        can_grow(s@, text::byte_len(scheme@)),
    ensures
        text::opt_text(r) == url_with_scheme(s@, scheme@),
{
    let mut u = url::Url::parse(s).ok()?;
    u.set_scheme(scheme).ok()?;
    Some(u.to_string())
}

/// `url::Url::set_path`: the address as it is written then; nothing where the text is no address. It
/// depends on the two texts alone. The positions in the address have to fit 32 bits.
#[verifier::external_body]
fn with_path(s: &str, path: &str) -> (r: Option<String>)
    requires
        can_grow(s@, text::byte_len(path@)),
    ensures
        text::opt_text(r) == url_with_path(s@, path@),
{
    let mut u = url::Url::parse(s).ok()?;
    u.set_path(path);
    Some(u.to_string())
}

/// `url::Url::set_query`: the address as it is written then; nothing where the text is no address. It
/// depends on the two texts alone. The positions in the address have to fit 32 bits.
#[verifier::external_body]
fn with_query(s: &str, query: &str) -> (r: Option<String>)
    requires
        can_grow(s@, text::byte_len(query@)),
    ensures
        text::opt_text(r) == url_with_query(s@, query@),
{
    let mut u = url::Url::parse(s).ok()?;
    u.set_query(Some(query));
    Some(u.to_string())
}

/// `url::Url::query_pairs_mut` and its `append_pair`: the address as it is written then; nothing
/// where the text is no address. The positions in the address have to fit 32 bits.
#[verifier::external_body]
fn append_pair(s: &str, key: &str, value: &str) -> (r: Option<String>)
    requires
        can_grow(s@, text::byte_len(key@) + text::byte_len(value@)),
    ensures
        text::opt_text(r) == url_with_pair(s@, key@, value@),
{
    let mut u = url::Url::parse(s).ok()?;
    u.query_pairs_mut().append_pair(key, value);
    Some(u.to_string())
}

/// What the pairs of a list hold.
pub open spec fn pairs_view(v: Seq<(String, String)>) -> Seq<(Seq<char>, Seq<char>)> {
    Seq::new(v.len(), |i: int| (v[i].0@, v[i].1@))
}

/// `url::form_urlencoded::parse`: the pairs of a query, decoded, in their order. They depend on the
/// query alone.
#[verifier::external_body]
fn pairs_of(query: &str) -> (r: Vec<(String, String)>)
    ensures
        pairs_view(r@) == query_pairs(query@),
{
    url::form_urlencoded::parse(query.as_bytes()).into_owned().collect()
}

/// The value of the first pair of that name.
pub open spec fn first_value(pairs: Seq<(Seq<char>, Seq<char>)>, key: Seq<char>) -> Option<Seq<char>>
    decreases pairs.len(),
{
    if pairs.len() == 0 {
        None
    } else if pairs[0].0 == key {
        Some(pairs[0].1)
    } else {
        first_value(pairs.skip(1), key)
    }
}

/// The value of the first pair of that name.
pub fn find_value(pairs: &Vec<(String, String)>, key: &str) -> (r: Option<String>)
    ensures
        text::opt_text(r) == first_value(pairs_view(pairs@), key@),
{
    let ghost all = pairs_view(pairs@);
    let mut i: usize = 0;
    assert(all.skip(0) =~= all);
    while i < pairs.len()
        invariant
            i <= pairs@.len(),
            all == pairs_view(pairs@),
            first_value(all, key@) == first_value(all.skip(i as int), key@),
        decreases pairs@.len() - i,
    {
        proof {
            assert(all.skip(i as int)[0] == all[i as int]);
            assert(all.skip(i as int).skip(1) =~= all.skip(i + 1));
        }
        if same_text(pairs[i].0.as_str(), key) {
            return Some(pairs[i].1.clone());
        }
        i = i + 1;
    }
    None
}

/// The value of the first pair of that name in a query.
pub fn find_in_query(query: &str, key: &str) -> (r: Option<String>)
    ensures
        text::opt_text(r) == first_value(query_pairs(query@), key@),
{
    find_value(&pairs_of(query), key)
}

// ---------------------------------------------------------------------------------------------
// The addresses of the service
// ---------------------------------------------------------------------------------------------

/// A text without the slashes at its end.
pub open spec fn unslashed(s: Seq<char>) -> Seq<char> {
    text::drop_back(s, text::only('/'))
}

/// A text without the slashes at its end.
pub fn trim_trailing_slash(value: &str) -> (r: String)
    ensures
        r@ == unslashed(value@),
{
    trim_end_of(value, '/')
}

/// The address is the expected one: encrypted, with its host and its path, and without a query or a
/// fragment.
pub open spec fn is_the_endpoint(u: UrlView, expected: UrlView) -> bool {
    &&& u.scheme == "https"@
    &&& u.host == expected.host
    &&& unslashed(u.path) == unslashed(expected.path)
    &&& u.query is None
    &&& u.fragment is None
}

fn same_opt_text(a: &Option<String>, b: &Option<String>) -> (r: bool)
    ensures
        r == (text::opt_text(*a) == text::opt_text(*b)),
{
    match (a, b) {
        (Some(x), Some(y)) => same_text(x.as_str(), y.as_str()),
        (None, None) => true,
        _ => false,
    }
}

/// Whether an address is the expected one.
pub fn matches_endpoint(u: &UrlParts, expected: &UrlParts) -> (r: bool)
    ensures
        r == is_the_endpoint(u@, expected@),
{
    same_text(u.scheme.as_str(), "https") && same_opt_text(&u.host, &expected.host) && same_text(
        trim_trailing_slash(u.path.as_str()).as_str(),
        trim_trailing_slash(expected.path.as_str()).as_str(),
    ) && u.query.is_none() && u.fragment.is_none()
}

/// A setting names the expected address.
pub open spec fn is_expected(value: Seq<char>, expected: Seq<char>) -> bool {
    let v = unslashed(text::trimmed(value));
    &&& v.len() > 0
    &&& parsed_url(v) is Some
    &&& parsed_url(expected) is Some
    &&& is_the_endpoint(parsed_url(v)->0, parsed_url(expected)->0)
}

/// A short encrypted address with a plain host and a plain path, and without a slash at its end.
pub open spec fn is_plain_address(s: Seq<char>) -> bool {
    &&& s.len() < 1000
    &&& s.last() != '/'
    &&& exists|host: Seq<char>, path: Seq<char>|
        s == #[trigger] address(host, path) && plain_host(host) && plain_path(path)
}

/// A plain address names itself, once it is known which parts it has.
proof fn plain_addresses_name_themselves(s: Seq<char>, host: Seq<char>, path: Seq<char>)
    requires
        s.last() != '/',
        s == address(host, path),
        plain_host(host),
        plain_path(path),
        parsed_url(s) == Some(address_parts(host, path)),
    ensures
        is_expected(s, s),
{
    reveal_strlit("https://");
    assert(s[0] == 'h');
    if path.len() > 0 {
        assert(s.last() == path[path.len() - 1]);
    } else {
        assert(s.last() == host[host.len() - 1]);
    }
    assert(!text::is_white_space(s.last()));
    text::trimmed_is(s);
    assert(unslashed(s) == s);
}

/// Whether a setting names the expected address. A plain address names itself.
pub fn is_expected_public_endpoint(value: &str, expected: &str) -> (r: bool)
    ensures
        r == is_expected(value@, expected@),
        is_plain_address(expected@) ==> is_expected(expected@, expected@),
{
    let wanted = parse_url(expected);
    proof {
        if is_plain_address(expected@) {
            let (host, path) = choose|host: Seq<char>, path: Seq<char>|
                expected@ == #[trigger] address(host, path) && plain_host(host) && plain_path(path);
            plain_addresses_name_themselves(expected@, host, path);
        }
    }
    let v = trim_trailing_slash(trim(value).as_str());
    if v.as_str().is_empty() {
        return false;
    }
    match (parse_url(v.as_str()), wanted) {
        (Some(u), Some(e)) => matches_endpoint(&u, &e),
        _ => false,
    }
}

/// An address from old settings: it is kept, without slashes at its end, where it is the expected
/// one, and replaced by that one otherwise.
pub fn normalize_legacy_url(value: &str, production: &str) -> (r: String)
    ensures
        r@ == legacy_url(value@, production@),
{
    let v = trim_trailing_slash(trim(value).as_str());
    if is_expected_public_endpoint(v.as_str(), production) {
        v
    } else {
        production.to_owned()
    }
}

/// An address from old settings.
pub open spec fn legacy_url(value: Seq<char>, production: Seq<char>) -> Seq<char> {
    let v = unslashed(text::trimmed(value));
    if is_expected(v, production) {
        v
    } else {
        production
    }
}

/// Checks an address that a user entered against the expected one.
pub open spec fn public_url_outcome(
    value: Seq<char>,
    found: Option<UrlView>,
    expected: Seq<char>,
    wanted: Option<UrlView>,
    label: Seq<char>,
) -> Result<(), ErrorView> {
    if found is None {
        Err(ErrorView::InvalidInput("invalid URL: "@ + value))
    } else if wanted is None {
        Err(ErrorView::Config("invalid bundled "@ + label + ": "@ + expected))
    } else if is_the_endpoint(found->0, wanted->0) {
        Ok(())
    } else {
        Err(ErrorView::InvalidInput(label + " must be "@ + wanted->0.text))
    }
}

/// Checks an address, given what it and the expected one were read as.
pub fn judge_public_url(
    value: &str,
    found: Option<UrlParts>,
    expected: &str,
    wanted: Option<UrlParts>,
    label: &str,
) -> (r: AppResult<()>)
    ensures
        error::plain(r) == public_url_outcome(
            value@,
            opt_url(found),
            expected@,
            opt_url(wanted),
            label@,
        ),
{
    let u = match found {
        Some(u) => u,
        None => {
            return Err(invalid(cat("invalid URL: ", value).as_str()));
        },
    };
    let e = match wanted {
        Some(e) => e,
        None => {
            let mut message = cat3("invalid bundled ", label, ": ");
            message.append(expected);
            return Err(AppError::Config(message));
        },
    };
    if matches_endpoint(&u, &e) {
        Ok(())
    } else {
        Err(invalid(cat3(label, " must be ", e.text.as_str()).as_str()))
    }
}

/// Checks an address that a user entered against the expected one.
pub fn validate_public_miru_url(value: &str, expected: &str, label: &str) -> (r: AppResult<()>)
    ensures
        error::plain(r) == public_url_outcome(
            value@,
            parsed_url(value@),
            expected@,
            parsed_url(expected@),
            label@,
        ),
{
    judge_public_url(value, parse_url(value), expected, parse_url(expected), label)
}

/// A webhook is an encrypted address of Discord.
pub open spec fn webhook_outcome(found: Option<UrlView>) -> Result<(), ErrorView> {
    match found {
        None => Err(ErrorView::InvalidInput("invalid Discord webhook URL"@)),
        Some(u) => {
            let host = match u.host {
                Some(h) => text::lower_text(h),
                None => Seq::empty(),
            };
            if u.scheme == "https"@ && (host == "discord.com"@ || host == "discordapp.com"@) {
                Ok(())
            } else {
                Err(
                    ErrorView::InvalidInput(
                        "Discord webhook must be an HTTPS discord.com/discordapp.com URL"@,
                    ),
                )
            }
        },
    }
}

/// Checks a webhook, given what its address was read as.
pub fn judge_discord_webhook(found: Option<UrlParts>) -> (r: AppResult<()>)
    ensures
        error::plain(r) == webhook_outcome(opt_url(found)),
{
    let u = match found {
        Some(u) => u,
        None => {
            return Err(invalid("invalid Discord webhook URL"));
        },
    };
    let host = match &u.host {
        Some(h) => lowercase(h.as_str()),
        None => String::new(),
    };
    if same_text(u.scheme.as_str(), "https") && (same_text(host.as_str(), "discord.com")
        || same_text(host.as_str(), "discordapp.com")) {
        Ok(())
    } else {
        Err(invalid("Discord webhook must be an HTTPS discord.com/discordapp.com URL"))
    }
}

/// Checks that a webhook is an encrypted address of Discord.
pub fn validate_discord_webhook(value: &str) -> (r: AppResult<()>)
    ensures
        error::plain(r) == webhook_outcome(parsed_url(value@)),
{
    judge_discord_webhook(parse_url(value))
}

// ---------------------------------------------------------------------------------------------
// Pictures of users
// ---------------------------------------------------------------------------------------------

/// The address of the picture of a user. An encrypted address stays as it is, a plain one is
/// dropped; a path belongs to the site, and one below "api/" to the host of the service.
pub open spec fn avatar_url(
    api: Option<UrlView>,
    frontend: Seq<char>,
    raw: Option<Seq<char>>,
) -> Seq<char> {
    let s = match raw {
        Some(r) => text::trimmed(r),
        None => Seq::empty(),
    };
    if s.len() == 0 {
        Seq::empty()
    } else if scan::begins(s, "https://"@) {
        s
    } else if scan::begins(s, "http://"@) {
        Seq::empty()
    } else if scan::begins(s, "/"@) {
        unslashed(frontend) + s
    } else if scan::begins(s, "api/"@) {
        let base = match api {
            Some(u) => match u.host {
                Some(h) => u.scheme + "://"@ + h,
                None => unslashed(frontend),
            },
            None => unslashed(frontend),
        };
        unslashed(base) + "/"@ + s
    } else {
        Seq::empty()
    }
}

/// The address of the picture of a user, given what the address of the service was read as.
pub fn avatar_url_from(api: Option<UrlParts>, frontend_url: &str, raw: Option<&str>) -> (r: String)
    ensures
        r@ == avatar_url(opt_url(api), frontend_url@, text::opt_str(raw)),
{
    let s = match raw {
        Some(r) => trim(r),
        None => String::new(),
    };
    if s.as_str().is_empty() {
        return String::new();
    }
    if starts_with(s.as_str(), "https://") {
        return s;
    }
    if starts_with(s.as_str(), "http://") {
        return String::new();
    }
    if starts_with(s.as_str(), "/") {
        return cat(trim_trailing_slash(frontend_url).as_str(), s.as_str());
    }
    if starts_with(s.as_str(), "api/") {
        let base = match &api {
            Some(u) => match &u.host {
                Some(h) => cat3(u.scheme.as_str(), "://", h.as_str()),
                None => trim_trailing_slash(frontend_url),
            },
            None => trim_trailing_slash(frontend_url),
        };
        return cat3(trim_trailing_slash(base.as_str()).as_str(), "/", s.as_str());
    }
    String::new()
}

/// The address of the picture of a user.
pub fn normalize_avatar_url(api_url: &str, frontend_url: &str, raw: Option<&str>) -> (r: String)
    ensures
        r@ == avatar_url(parsed_url(api_url@), frontend_url@, text::opt_str(raw)),
{
    avatar_url_from(parse_url(api_url), frontend_url, raw)
}

/// A picture is never fetched from an address that is not encrypted: a picture with an address of its
/// own comes from an encrypted one.
pub proof fn plain_pictures_are_dropped(api: Option<UrlView>, frontend: Seq<char>, raw: Seq<char>)
    requires
        scan::begins(text::trimmed(raw), "http://"@),
    ensures
        avatar_url(api, frontend, Some(raw)).len() == 0,
{
    reveal_strlit("http://");
    reveal_strlit("https://");
    let s = text::trimmed(raw);
    assert(s.subrange(0, 7)[4] == s[4]);
    if scan::begins(s, "https://"@) {
        assert(s.subrange(0, 8)[4] == s[4]);
    }
}

// ---------------------------------------------------------------------------------------------
// Transfers of a worker
// ---------------------------------------------------------------------------------------------

/// Two addresses of one scheme, host and port.
pub open spec fn same_origin(a: Option<UrlView>, b: Option<UrlView>) -> bool {
    match (a, b) {
        (Some(x), Some(y)) => x.scheme == y.scheme && x.host == y.host && x.port_or_default
            == y.port_or_default,
        _ => false,
    }
}

/// Whether two addresses have one scheme, host and port.
pub fn origins_agree(a: &Option<UrlParts>, b: &Option<UrlParts>) -> (r: bool)
    ensures
        r == same_origin(opt_url(*a), opt_url(*b)),
{
    match (a, b) {
        (Some(x), Some(y)) => same_text(x.scheme.as_str(), y.scheme.as_str()) && same_opt_text(
            &x.host,
            &y.host,
        ) && x.port_or_default == y.port_or_default,
        _ => false,
    }
}

/// Whether two texts are addresses of one scheme, host and port. A token is sent to no other origin.
pub fn is_same_origin(left: &str, right: &str) -> (r: bool)
    ensures
        r == same_origin(parsed_url(left@), parsed_url(right@)),
{
    origins_agree(&parse_url(left), &parse_url(right))
}

/// The scheme, the host and the port of an address.
pub open spec fn origin_text(u: UrlView, host: Seq<char>) -> Seq<char> {
    let origin = u.scheme + "://"@ + host;
    match u.port {
        Some(p) => origin + ":"@ + scan::decimal(p as nat),
        None => origin,
    }
}

/// What is wrong with the address of the service.
pub open spec fn bad_api(api: Seq<char>) -> ErrorView {
    ErrorView::InvalidInput("invalid API URL: "@ + api)
}

/// What is wrong with the address of a transfer.
pub open spec fn bad_transfer(raw: Seq<char>) -> ErrorView {
    ErrorView::InvalidInput("invalid worker transfer URL: "@ + raw)
}

/// The address that a transfer was told, or the error where there is none.
pub open spec fn told(found: Option<UrlView>, raw: Seq<char>) -> Result<UrlView, ErrorView> {
    match found {
        Some(u) => Ok(u),
        None => Err(bad_transfer(raw)),
    }
}

/// Only encrypted addresses are used for transfers.
pub open spec fn encrypted(found: Result<UrlView, ErrorView>) -> Result<Seq<char>, ErrorView> {
    match found {
        Err(e) => Err(e),
        Ok(u) => if u.scheme == "https"@ {
            Ok(u.text)
        } else {
            Err(
                ErrorView::InvalidInput(
                    "only HTTPS URLs are allowed for worker transfers: "@ + u.text,
                ),
            )
        },
    }
}

/// The address of a transfer: a whole address stands for itself, a path below "/api/" belongs to the
/// origin of the service, and anything else is a reference from the service.
pub open spec fn transfer_url(raw: Seq<char>, api: Seq<char>) -> Result<Seq<char>, ErrorView> {
    let s = text::trimmed(raw);
    match parsed_url(api) {
        None => Err(bad_api(api)),
        Some(base) => encrypted(
            if scan::begins(s, "http://"@) || scan::begins(s, "https://"@) {
                told(parsed_url(s), s)
            } else if scan::begins(s, "/api/"@) {
                match base.host {
                    None => Err(bad_api(api)),
                    Some(host) => told(parsed_url(origin_text(base, host) + s), s),
                }
            } else {
                let root = unslashed(api) + "/"@;
                if parsed_url(root) is None {
                    Err(bad_api(api))
                } else {
                    told(joined_url(root, text::drop_front(s, text::only('/'))), s)
                }
            },
        ),
    }
}

fn api_error(api_url: &str) -> (e: AppError)
    ensures
        e@ == bad_api(api_url@),
{
    invalid(cat("invalid API URL: ", api_url).as_str())
}

/// The address of a transfer, given what it was read as. Only an encrypted one is used.
pub fn accept_transfer_url(found: Option<UrlParts>, raw_url: &str) -> (r: AppResult<String>)
    ensures
        error::outcome(r) == encrypted(told(opt_url(found), raw_url@)),
{
    match found {
        None => Err(invalid(cat("invalid worker transfer URL: ", raw_url).as_str())),
        Some(u) => {
            if same_text(u.scheme.as_str(), "https") {
                Ok(u.text)
            } else {
                Err(
                    invalid(
                        cat(
                            "only HTTPS URLs are allowed for worker transfers: ",
                            u.text.as_str(),
                        ).as_str(),
                    ),
                )
            }
        },
    }
}

/// The origin of an address with that host, as it is written.
pub fn write_origin(u: &UrlParts, host: &str) -> (r: String)
    ensures
        r@ == origin_text(u@, host@),
{
    let origin = cat3(u.scheme.as_str(), "://", host);
    match u.port {
        Some(p) => cat3(origin.as_str(), ":", show(p as u64).as_str()),
        None => origin,
    }
}

/// The address of a transfer.
pub fn resolve_worker_url(raw_url: &str, api_base_url: &str) -> (r: AppResult<String>)
    ensures
        error::outcome(r) == transfer_url(raw_url@, api_base_url@),
{
    let s = trim(raw_url);
    let base = match parse_url(api_base_url) {
        Some(b) => b,
        None => {
            return Err(api_error(api_base_url));
        },
    };
    if starts_with(s.as_str(), "http://") || starts_with(s.as_str(), "https://") {
        return accept_transfer_url(parse_url(s.as_str()), s.as_str());
    }
    if starts_with(s.as_str(), "/api/") {
        let host = match &base.host {
            Some(h) => h,
            None => {
                return Err(api_error(api_base_url));
            },
        };
        let whole = cat(write_origin(&base, host.as_str()).as_str(), s.as_str());
        return accept_transfer_url(parse_url(whole.as_str()), s.as_str());
    }
    let root = cat(trim_trailing_slash(api_base_url).as_str(), "/");
    if parse_url(root.as_str()).is_none() {
        return Err(api_error(api_base_url));
    }
    let reference = trim_start_of(s.as_str(), '/');
    accept_transfer_url(join_url(root.as_str(), reference.as_str()), s.as_str())
}

/// Every address that a transfer is given is the text of an encrypted one.
pub proof fn transfers_are_encrypted(raw: Seq<char>, api: Seq<char>)
    ensures
        transfer_url(raw, api) matches Ok(t) ==> exists|u: UrlView|
            u.scheme == "https"@ && #[trigger] u.text == t,
{
    if transfer_url(raw, api) is Ok {
        let s = text::trimmed(raw);
        let base = parsed_url(api)->0;
        let u = if scan::begins(s, "http://"@) || scan::begins(s, "https://"@) {
            parsed_url(s)->0
        } else if scan::begins(s, "/api/"@) {
            parsed_url(origin_text(base, base.host->0) + s)->0
        } else {
            joined_url(unslashed(api) + "/"@, text::drop_front(s, text::only('/')))->0
        };
        assert(u.scheme == "https"@ && u.text == transfer_url(raw, api)->Ok_0);
    }
}

// ---------------------------------------------------------------------------------------------
// The socket of a worker
// ---------------------------------------------------------------------------------------------

/// The path of the socket: what stands before the version of the interface, then the socket.
pub open spec fn socket_path(path: Seq<char>) -> Seq<char> {
    let base = scan::before_first(unslashed(path), "/api/v"@);
    base + "/socket.io/"@
}

/// The path of the socket, from the path of the service.
pub fn worker_socket_path(path: &str) -> (r: String)
    ensures
        r@ == socket_path(path@),
{
    let base = cut_before(trim_trailing_slash(path).as_str(), "/api/v");
    cat(base.as_str(), "/socket.io/")
}

/// The address of the socket. The service has to be encrypted, and so is the socket.
pub open spec fn socket_url(api: Seq<char>) -> Result<Seq<char>, ErrorView> {
    match parsed_url(api) {
        None => Err(bad_api(api)),
        Some(u) => if u.scheme != "https"@ {
            Err(ErrorView::InvalidInput("worker socket URL must use HTTPS"@))
        } else {
            rebuilt(api, "wss"@, socket_path(u.path), "EIO=4&transport=websocket"@)
        },
    }
}

/// An address with another scheme, path and query, as it is written. One that would grow too long at one
/// of these steps is refused.
pub open spec fn rebuilt(s: Seq<char>, scheme: Seq<char>, path: Seq<char>, query: Seq<char>) -> Result<
    Seq<char>,
    ErrorView,
> {
    let bad: Result<Seq<char>, ErrorView> = Err(
        ErrorView::InvalidInput("invalid worker socket scheme"@),
    );
    if !can_grow(s, text::byte_len(scheme)) {
        bad
    } else {
        match url_with_scheme(s, scheme) {
            None => bad,
            Some(a) => if !can_grow(a, text::byte_len(path)) {
                bad
            } else {
                match url_with_path(a, path) {
                    None => bad,
                    Some(b) => if !can_grow(b, text::byte_len(query)) {
                        bad
                    } else {
                        match url_with_query(b, query) {
                            None => bad,
                            Some(c) => Ok(c),
                        }
                    },
                }
            },
        }
    }
}

fn rebuild(s: &str, scheme: &str, path: &str, query: &str) -> (r: AppResult<String>)
    ensures
        error::outcome(r) == rebuilt(s@, scheme@, path@, query@),
{
    if may_grow(s, bytes_in(scheme)) {
        if let Some(a) = with_scheme(s, scheme) {
            if may_grow(a.as_str(), bytes_in(path)) {
                if let Some(b) = with_path(a.as_str(), path) {
                    if may_grow(b.as_str(), bytes_in(query)) {
                        if let Some(c) = with_query(b.as_str(), query) {
                            return Ok(c);
                        }
                    }
                }
            }
        }
    }
    Err(invalid("invalid worker socket scheme"))
}

/// The address of the socket of a worker.
pub fn worker_socket_url(api_url: &str) -> (r: AppResult<String>)
    ensures
        error::outcome(r) == socket_url(api_url@),
{
    let u = match parse_url(api_url) {
        Some(u) => u,
        None => {
            return Err(api_error(api_url));
        },
    };
    if !same_text(u.scheme.as_str(), "https") {
        return Err(invalid("worker socket URL must use HTTPS"));
    }
    let path = worker_socket_path(u.path.as_str());
    rebuild(api_url, "wss", path.as_str(), "EIO=4&transport=websocket")
}

/// An address with the machine in its query. What is no address, and one that would grow too long, is
/// refused.
pub open spec fn machine_url(raw: Seq<char>, machine_id: Seq<char>) -> Result<Seq<char>, ErrorView> {
    if can_grow(raw, text::byte_len("machineId"@) + text::byte_len(machine_id)) {
        match url_with_pair(raw, "machineId"@, machine_id) {
            Some(s) => Ok(s),
            None => Err(ErrorView::InvalidInput("invalid URL: "@ + raw)),
        }
    } else {
        Err(ErrorView::InvalidInput("invalid URL: "@ + raw))
    }
}

/// An address with the machine in its query.
pub fn append_machine_id_query(raw_url: &str, machine_id: &str) -> (r: AppResult<String>)
    ensures
        error::outcome(r) == machine_url(raw_url@, machine_id@),
{
    if may_grow(raw_url, bytes_in("machineId") + bytes_in(machine_id)) {
        if let Some(s) = append_pair(raw_url, "machineId", machine_id) {
            return Ok(s);
        }
    }
    Err(invalid(cat("invalid URL: ", raw_url).as_str()))
}

/// Only an address with the scheme, the host and the path of the service, and with neither a query nor a
/// fragment, is the endpoint; a stroke at the end of the path does not matter.
pub proof fn endpoints_are_told_apart(u: UrlView, expected: UrlView)
    ensures
        is_the_endpoint(u, expected) <==> u.scheme == "https"@ && u.host == expected.host && text::drop_back(
            u.path,
            text::only('/'),
        ) == text::drop_back(expected.path, text::only('/')) && u.query is None && u.fragment is None,
{
}

/// An address that a user enters is accepted exactly where it is the endpoint.
pub proof fn only_the_endpoint_is_accepted(
    value: Seq<char>,
    found: Option<UrlView>,
    expected: Seq<char>,
    wanted: Option<UrlView>,
    label: Seq<char>,
)
    ensures
        public_url_outcome(value, found, expected, wanted, label) is Ok <==> found is Some && wanted is Some
            && is_the_endpoint(found->0, wanted->0),
        found is None ==> public_url_outcome(value, found, expected, wanted, label) == Err::<(), ErrorView>(
            ErrorView::InvalidInput("invalid URL: "@ + value),
        ),
{
}

/// A webhook is accepted exactly where it is one of Discord, by an encrypted address.
pub proof fn webhooks_are_those_of_discord(u: UrlView)
    ensures
        webhook_outcome(Some(u)) is Ok <==> u.scheme == "https"@ && (u.host matches Some(h) && (
        text::lower_text(h) == "discord.com"@ || text::lower_text(h) == "discordapp.com"@)),
        webhook_outcome(None) is Err,
{
    reveal_strlit("discord.com");
    reveal_strlit("discordapp.com");
    assert("discord.com"@.len() == 11 && "discordapp.com"@.len() == 14);
}

/// A picture is shown from where it lies: an encrypted address as it is, one that begins with a stroke below
/// the service.
pub proof fn pictures_are_shown_from_where_they_lie(
    api: Option<UrlView>,
    frontend: Seq<char>,
    raw: Seq<char>,
)
    ensures
        scan::begins(text::trimmed(raw), "https://"@) ==> avatar_url(api, frontend, Some(raw))
            == text::trimmed(raw),
        text::is_blank(raw) ==> avatar_url(api, frontend, Some(raw)).len() == 0,
        avatar_url(api, frontend, None).len() == 0,
        scan::begins(text::trimmed(raw), "/"@) ==> avatar_url(api, frontend, Some(raw)) == unslashed(
            frontend,
        ) + text::trimmed(raw),
{
    let s = text::trimmed(raw);
    reveal_strlit("https://");
    reveal_strlit("http://");
    reveal_strlit("/");
    if scan::begins(s, "https://"@) {
        assert(s.subrange(0, 8).len() == 8);
    }
    if scan::begins(s, "/"@) {
        assert(s.subrange(0, 1)[0] == s[0]);
        assert("/"@[0] == '/');
        if scan::begins(s, "https://"@) {
            assert(s.subrange(0, 8)[0] == s[0]);
            assert("https://"@[0] == 'h');
        }
        if scan::begins(s, "http://"@) {
            assert(s.subrange(0, 7)[0] == s[0]);
            assert("http://"@[0] == 'h');
        }
    }
}

/// Two addresses have the same origin where scheme, host and port are the same.
pub proof fn origins_are_told_apart(a: UrlView, b: UrlView)
    ensures
        same_origin(Some(a), Some(b)) <==> a.scheme == b.scheme && a.host == b.host && a.port_or_default
            == b.port_or_default,
        !same_origin(None, Some(b)),
        !same_origin(Some(a), None),
        !same_origin(None, None),
{
}

/// The first value of a name counts, and a name that is not there has none.
pub proof fn first_values_count(pairs: Seq<(Seq<char>, Seq<char>)>, key: Seq<char>, i: int)
    ensures
        0 <= i < pairs.len() && pairs[i].0 == key && (forall|j: int|
            0 <= j < i ==> (#[trigger] pairs[j]).0 != key) ==> first_value(pairs, key) == Some(pairs[i].1),
        (forall|j: int| 0 <= j < pairs.len() ==> (#[trigger] pairs[j]).0 != key) ==> first_value(pairs, key)
            is None,
    decreases pairs.len(),
{
    if pairs.len() > 0 {
        let rest = pairs.skip(1);
        first_values_count(rest, key, i - 1);
        if forall|j: int| 0 <= j < pairs.len() ==> (#[trigger] pairs[j]).0 != key {
            assert forall|j: int| 0 <= j < rest.len() implies (#[trigger] rest[j]).0 != key by {
                assert(rest[j] == pairs[j + 1]);
            }
        }
        if 0 < i < pairs.len() && (forall|j: int| 0 <= j < i ==> (#[trigger] pairs[j]).0 != key) {
            assert(pairs[0].0 != key);
            assert(rest[i - 1] == pairs[i]);
            assert forall|j: int| 0 <= j < i - 1 implies (#[trigger] rest[j]).0 != key by {
                assert(rest[j] == pairs[j + 1]);
            }
        }
    }
}

/// A transfer goes to the address that is told where that is a whole one; a path of the service goes below its
/// origin, and anything else below the address of the service. Only encrypted addresses are used.
pub proof fn transfers_go_where_they_are_told(raw: Seq<char>, api: Seq<char>, base: UrlView, u: UrlView)
    requires
        parsed_url(api) == Some(base),
    ensures
        scan::begins(text::trimmed(raw), "https://"@) && parsed_url(text::trimmed(raw)) == Some(u) && u.scheme
            == "https"@ ==> transfer_url(raw, api) == Ok::<Seq<char>, ErrorView>(u.text),
        scan::begins(text::trimmed(raw), "https://"@) && parsed_url(text::trimmed(raw)) is None
            ==> transfer_url(raw, api) is Err,
        scan::begins(text::trimmed(raw), "http://"@) && parsed_url(text::trimmed(raw)) == Some(u) && u.scheme
            != "https"@ ==> transfer_url(raw, api) is Err,
        !scan::begins(text::trimmed(raw), "https://"@) && !scan::begins(text::trimmed(raw), "http://"@)
            && scan::begins(text::trimmed(raw), "/api/"@) ==> (base.host matches Some(host) ==> parsed_url(
            origin_text(base, host) + text::trimmed(raw),
        ) == Some(u) && u.scheme == "https"@ ==> transfer_url(raw, api) == Ok::<Seq<char>, ErrorView>(u.text)),
        !scan::begins(text::trimmed(raw), "https://"@) && !scan::begins(text::trimmed(raw), "http://"@)
            && !scan::begins(text::trimmed(raw), "/api/"@) && parsed_url(unslashed(api) + "/"@) is Some
            && joined_url(
            unslashed(api) + "/"@,
            text::drop_front(text::trimmed(raw), text::only('/')),
        ) == Some(u) && u.scheme == "https"@ ==> transfer_url(raw, api) == Ok::<Seq<char>, ErrorView>(u.text),
{
}

/// The origin of an address is its scheme and its host, and its port where it tells one.
pub proof fn origins_are_written(u: UrlView, host: Seq<char>, port: u16)
    ensures
        u.port is None ==> origin_text(u, host) == u.scheme + "://"@ + host,
        u.port == Some(port) ==> origin_text(u, host) == u.scheme + "://"@ + host + ":"@ + scan::decimal(
            port as nat,
        ),
{
}

/// The sockets of a service lie beside its interface: what stands before its first version, and the name of the
/// sockets.
pub proof fn sockets_lie_beside_the_interface(base: Seq<char>, rest: Seq<char>)
    requires
        unslashed(base + "/api/v"@ + rest) == base + "/api/v"@ + rest,
        forall|i: int|
            0 <= i < base.len() ==> !#[trigger] scan::occurs_at(base + "/api/v"@ + rest, "/api/v"@, i),
    ensures
        socket_path(base + "/api/v"@ + rest) == base + "/socket.io/"@,
{
    scan::first_part_comes_before(base, "/api/v"@, rest);
}

/// Only an encrypted service has sockets.
pub proof fn sockets_are_encrypted(api: Seq<char>)
    ensures
        (parsed_url(api) matches Some(u) && u.scheme != "https"@) ==> socket_url(api) is Err,
        parsed_url(api) is None ==> socket_url(api) is Err,
{
}

} // verus!
