//! The requests to the server, and the replies that the player tells apart.

use vstd::prelude::*;
use crate::model::optional;
use crate::schedule::{ClientUpdateFlagsResponse, UpdateFlagsView};

verus! {

/// Where the server is and who this player is.
#[derive(Clone, Debug)]
pub struct Config {
    /// The base URL of the server, without an `/api` suffix. Everything that belongs to a check-in
    /// lies below `/api/omniplay/device-checkin/` from there.
    pub url: String,
    /// The identifier of this player.
    pub id: String,
    pub username: String,
    pub password: String,
    /// The key from the last key exchange.
    pub key: Option<String>,
}

/// What a [`Config`] denotes.
pub struct ConfigView {
    pub url: Seq<char>,
    pub id: Seq<char>,
    pub username: Seq<char>,
    pub password: Seq<char>,
    pub key: Option<Seq<char>>,
}

impl View for Config {
    type V = ConfigView;

    open spec fn view(&self) -> ConfigView {
        ConfigView {
            url: self.url@,
            id: self.id@,
            username: self.username@,
            password: self.password@,
            key: optional(self.key),
        }
    }
}

impl ConfigView {
    /// The key to send: empty before the first key exchange.
    pub open spec fn key_to_send(self) -> Seq<char> {
        match self.key {
            Some(key) => key,
            None => Seq::empty(),
        }
    }

    /// The address of what the server keeps for this player under `endpoint`.
    pub open spec fn address(self, endpoint: Seq<char>) -> Seq<char> {
        self.url + endpoint + self.id
    }
}

impl Config {
    /// Takes over the key from a key exchange.
    pub fn store_key(&mut self, key: String)
        ensures
            final(self)@ == (ConfigView { key: Some(key@), ..old(self)@ }),
            final(self).key == Some(key),
            final(self).url == old(self).url,
            final(self).id == old(self).id,
            final(self).username == old(self).username,
            final(self).password == old(self).password,
    {
        self.key = Some(key);
    }

    /// The key to send: empty before the first key exchange.
    pub fn key_to_send(&self) -> (result: String)
        ensures
            result@ == self@.key_to_send(),
            self.key matches Some(key) ==> result@ == key@,
            self.key is None ==> result@ == Seq::<char>::empty(),
    {
        match &self.key {
            Some(key) => key.clone(),
            None => String::new(),
        }
    }

    fn address(&self, endpoint: &str) -> (result: String)
        ensures
            result@ == self@.address(endpoint@),
            result@ == self.url@ + endpoint@ + self.id@,
    {
        self.url.clone().concat(endpoint).concat(self.id.as_str())
    }
}

/// The key that was stored last is the one that is sent, and before the first one an empty key is.
/// Everything that is asked for carries the identifier of the player behind the address of the
/// server.
pub proof fn stored_key_is_sent(config: ConfigView, key: Seq<char>, endpoint: Seq<char>)
    ensures
        (ConfigView { key: Some(key), ..config }).key_to_send() == key,
        (ConfigView { key: None, ..config }).key_to_send() == Seq::<char>::empty(),
        config.address(endpoint) == config.url + endpoint + config.id,
{
}

/// What is done with the resource at the address of a request.
#[derive(Clone, Copy, Debug, PartialEq, Eq, Structural)]
pub enum Method {
    Get,
    Post,
}

/// A request to the server.
#[derive(Clone, Debug)]
pub struct Request {
    pub method: Method,
    pub url: String,
    /// Name and value of each header.
    pub headers: Vec<(String, String)>,
    /// User name and password for basic authentication.
    pub basic_auth: Option<(String, String)>,
    /// The JSON object to send: name and value of each member.
    pub body: Option<Vec<(String, bool)>>,
}

/// What a [`Request`] denotes.
pub struct RequestView {
    pub method: Method,
    pub url: Seq<char>,
    pub headers: Seq<(Seq<char>, Seq<char>)>,
    pub basic_auth: Option<(Seq<char>, Seq<char>)>,
    pub body: Option<Seq<(Seq<char>, bool)>>,
}

impl View for Request {
    type V = RequestView;

    open spec fn view(&self) -> RequestView {
        RequestView {
            method: self.method,
            url: self.url@,
            headers: self.headers@.map_values(|header: (String, String)| (header.0@, header.1@)),
            basic_auth: match self.basic_auth {
                Some(pair) => Some((pair.0@, pair.1@)),
                None => None,
            },
            body: match self.body {
                Some(members) => Some(
                    members@.map_values(|member: (String, bool)| (member.0@, member.1)),
                ),
                None => None,
            },
        }
    }
}

/// Reading `url` with the key `key`.
pub open spec fn get_with_key(url: Seq<char>, key: Seq<char>) -> RequestView {
    RequestView {
        method: Method::Get,
        url,
        headers: seq![("APIKEY"@, key)],
        basic_auth: None,
        body: None,
    }
}

/// Sending `members` to `url` with the key `key`.
pub open spec fn post_with_key(
    url: Seq<char>,
    key: Seq<char>,
    members: Seq<(Seq<char>, bool)>,
) -> RequestView {
    RequestView { method: Method::Post, body: Some(members), ..get_with_key(url, key) }
}

fn key_header(key: String) -> (headers: Vec<(String, String)>)
    ensures
        headers@.map_values(|header: (String, String)| (header.0@, header.1@)) == seq![
            ("APIKEY"@, key@),
        ],
        headers.len() == 1,
        headers[0].0@ == "APIKEY"@,
        headers[0].1@ == key@,
{
    let mut headers: Vec<(String, String)> = Vec::new();
    headers.push(("APIKEY".to_string(), key));
    assert(headers@.map_values(|header: (String, String)| (header.0@, header.1@)) =~= seq![
        ("APIKEY"@, key@),
    ]);
    headers
}

fn get_request(url: String, key: String) -> (request: Request)
    ensures
        request@ == get_with_key(url@, key@),
        request.method == Method::Get,
        request.url@ == url@,
        request.headers.len() == 1,
        request.headers[0].0@ == "APIKEY"@,
        request.headers[0].1@ == key@,
        request.basic_auth is None,
        request.body is None,
{
    Request { method: Method::Get, url, headers: key_header(key), basic_auth: None, body: None }
}

fn post_request(url: String, key: String, members: Vec<(String, bool)>) -> (request: Request)
    ensures
        request@ == post_with_key(
            url@,
            key@,
            members@.map_values(|member: (String, bool)| (member.0@, member.1)),
        ),
        request.method == Method::Post,
        request.url@ == url@,
        request.headers.len() == 1,
        request.headers[0].0@ == "APIKEY"@,
        request.headers[0].1@ == key@,
        request.basic_auth is None,
        request.body == Some(members),
{
    Request {
        method: Method::Post,
        url,
        headers: key_header(key),
        basic_auth: None,
        body: Some(members),
    }
}

/// Asks whether the server is up.
pub fn health_request(config: &Config) -> (request: Request)
    ensures
        request@ == (RequestView {
            method: Method::Get,
            url: config@.url + "/health"@,
            headers: Seq::empty(),
            basic_auth: None,
            body: None,
        }),
        request.method == Method::Get,
        request.url@ == config.url@ + "/health"@,
        request.headers.len() == 0,
        request.basic_auth is None,
        request.body is None,
{
    let request = Request {
        method: Method::Get,
        url: config.url.clone().concat("/health"),
        headers: Vec::new(),
        basic_auth: None,
        body: None,
    };
    assert(request@.headers =~= Seq::empty());
    request
}

/// Asks for a new key, with user name and password.
pub fn new_key_request(config: &Config) -> (request: Request)
    ensures
        request@ == (RequestView {
            method: Method::Get,
            url: config@.address("/get-new-key/"@),
            headers: Seq::empty(),
            basic_auth: Some((config@.username, config@.password)),
            body: None,
        }),
        request.method == Method::Get,
        request.url@ == config.url@ + "/get-new-key/"@ + config.id@,
        request.headers.len() == 0,
        request.basic_auth matches Some(pair) && pair.0@ == config.username@ && pair.1@
            == config.password@,
        request.body is None,
{
    let request = Request {
        method: Method::Get,
        url: config.address("/get-new-key/"),
        headers: Vec::new(),
        basic_auth: Some((config.username.clone(), config.password.clone())),
        body: None,
    };
    assert(request@.headers =~= Seq::empty());
    request
}

/// Asks when the content of this player was last changed.
pub fn sync_request(config: &Config) -> (request: Request)
    ensures
        request@ == get_with_key(
            config@.address("/api/omniplay/device-checkin/sync/"@),
            config@.key_to_send(),
        ),
        request.method == Method::Get,
        request.url@ == config.url@ + "/api/omniplay/device-checkin/sync/"@ + config.id@,
        request.headers.len() == 1,
        request.headers[0].0@ == "APIKEY"@,
        request.headers[0].1@ == (match config.key {
            Some(key) => key@,
            None => Seq::<char>::empty(),
        }),
        request.basic_auth is None,
        request.body is None,
{
    get_request(config.address("/api/omniplay/device-checkin/sync/"), config.key_to_send())
}

/// Asks for the schedule of this player.
pub fn schedule_request(config: &Config) -> (request: Request)
    ensures
        request@ == get_with_key(
            config@.address("/api/omniplay/device-checkin/client-timeline-schedule/"@),
            config@.key_to_send(),
        ),
        request.method == Method::Get,
        request.url@ == config.url@ + "/api/omniplay/device-checkin/client-timeline-schedule/"@
            + config.id@,
        request.headers.len() == 1,
        request.headers[0].0@ == "APIKEY"@,
        request.headers[0].1@ == (match config.key {
            Some(key) => key@,
            None => Seq::<char>::empty(),
        }),
        request.basic_auth is None,
        request.body is None,
{
    get_request(
        config.address("/api/omniplay/device-checkin/client-timeline-schedule/"),
        config.key_to_send(),
    )
}

/// Asks for the videos of this player, with a key that was just exchanged.
pub fn videos_request(config: &Config, key: String) -> (request: Request)
    ensures
        request@ == (RequestView {
            method: Method::Get,
            url: config@.address("/api/omniplay/device-checkin/recieve-videos/"@),
            headers: seq![
                ("Accept"@, "application/json"@),
                ("Cache-Control"@, "no-cache"@),
                ("Accept-Encoding"@, "gzip, deflate, br"@),
                ("Connection"@, "keep-alive"@),
                ("APIKEY"@, key@),
            ],
            basic_auth: None,
            body: None,
        }),
        request.method == Method::Get,
        request.url@ == config.url@ + "/api/omniplay/device-checkin/recieve-videos/"@ + config.id@,
        request.headers.len() == 5,
        request.headers[0].0@ == "Accept"@ && request.headers[0].1@ == "application/json"@,
        request.headers[1].0@ == "Cache-Control"@ && request.headers[1].1@ == "no-cache"@,
        request.headers[2].0@ == "Accept-Encoding"@ && request.headers[2].1@ == "gzip, deflate, br"@,
        request.headers[3].0@ == "Connection"@ && request.headers[3].1@ == "keep-alive"@,
        request.headers[4].0@ == "APIKEY"@ && request.headers[4].1@ == key@,
        request.basic_auth is None,
        request.body is None,
{
    let mut headers: Vec<(String, String)> = Vec::new();
    headers.push(("Accept".to_string(), "application/json".to_string()));
    headers.push(("Cache-Control".to_string(), "no-cache".to_string()));
    headers.push(("Accept-Encoding".to_string(), "gzip, deflate, br".to_string()));
    headers.push(("Connection".to_string(), "keep-alive".to_string()));
    headers.push(("APIKEY".to_string(), key));
    let request = Request {
        method: Method::Get,
        url: config.address("/api/omniplay/device-checkin/recieve-videos/"),
        headers,
        basic_auth: None,
        body: None,
    };
    assert(request@.headers =~= seq![
        ("Accept"@, "application/json"@),
        ("Cache-Control"@, "no-cache"@),
        ("Accept-Encoding"@, "gzip, deflate, br"@),
        ("Connection"@, "keep-alive"@),
        ("APIKEY"@, key@),
    ]);
    request
}

/// Everything that belongs to a check-in is asked for, or reported, below the one address that the
/// server keeps for the check-ins of players.
pub proof fn check_ins_lie_together(config: ConfigView)
    ensures
        ({
            let base = config.url + "/api/omniplay/device-checkin/"@;
            &&& base.is_prefix_of(config.address("/api/omniplay/device-checkin/sync/"@))
            &&& base.is_prefix_of(
                config.address("/api/omniplay/device-checkin/client-timeline-schedule/"@),
            )
            &&& base.is_prefix_of(config.address("/api/omniplay/device-checkin/recieve-videos/"@))
            &&& base.is_prefix_of(
                config.address("/api/omniplay/device-checkin/client-acknowledge-updates/"@),
            )
        }),
{
    reveal_strlit("/api/omniplay/device-checkin/");
    reveal_strlit("/api/omniplay/device-checkin/sync/");
    reveal_strlit("/api/omniplay/device-checkin/client-timeline-schedule/");
    reveal_strlit("/api/omniplay/device-checkin/recieve-videos/");
    reveal_strlit("/api/omniplay/device-checkin/client-acknowledge-updates/");
    let base = config.url + "/api/omniplay/device-checkin/"@;
    let length = base.len() as int;
    assert(config.address("/api/omniplay/device-checkin/sync/"@).subrange(0, length) =~= base);
    assert(config.address("/api/omniplay/device-checkin/client-timeline-schedule/"@).subrange(
        0,
        length,
    ) =~= base);
    assert(config.address("/api/omniplay/device-checkin/recieve-videos/"@).subrange(0, length)
        =~= base);
    assert(config.address("/api/omniplay/device-checkin/client-acknowledge-updates/"@).subrange(
        0,
        length,
    ) =~= base);
}

/// The updates that the player reports as picked up.
#[derive(Clone, Copy, Debug, PartialEq, Eq, Structural)]
pub struct Acknowledgement {
    pub playlist_updated: bool,
    pub schedule_updated: bool,
    pub content_updated: bool,
}

/// What to report after an update: every flag that was raised, and nothing if none was.
pub open spec fn acknowledgement_of(flags: UpdateFlagsView) -> Option<Acknowledgement> {
    if flags.update_pending() {
        Some(
            Acknowledgement {
                playlist_updated: flags.playlist_update_needed,
                schedule_updated: flags.schedule_update_needed,
                content_updated: flags.content_update_needed,
            },
        )
    } else {
        None
    }
}

/// There is something to report exactly if one of the three flags was raised, and the report holds
/// each of them as it was. A change of the layout is no part of it.
pub proof fn every_raised_flag_is_reported(flags: UpdateFlagsView)
    ensures
        flags.playlist_update_needed || flags.schedule_update_needed || flags.content_update_needed
            <==> acknowledgement_of(flags) is Some,
        acknowledgement_of(flags) matches Some(report) ==> report.playlist_updated
            == flags.playlist_update_needed && report.schedule_updated
            == flags.schedule_update_needed && report.content_updated
            == flags.content_update_needed,
{
}

/// What to report after an update.
pub fn acknowledgement(flags: &ClientUpdateFlagsResponse) -> (result: Option<Acknowledgement>)
    ensures
        result == acknowledgement_of(flags@),
        result is Some <==> flags.playlist_update_needed || flags.schedule_update_needed
            || flags.content_update_needed,
        result matches Some(report) ==> report.playlist_updated == flags.playlist_update_needed
            && report.schedule_updated == flags.schedule_update_needed && report.content_updated
            == flags.content_update_needed,
{
    if flags.update_pending() {
        Some(
            Acknowledgement {
                playlist_updated: flags.playlist_update_needed,
                schedule_updated: flags.schedule_update_needed,
                content_updated: flags.content_update_needed,
            },
        )
    } else {
        None
    }
}

/// Reports updates as picked up.
pub fn acknowledge_updates_request(config: &Config, report: Acknowledgement) -> (request: Request)
    ensures
        request@ == post_with_key(
            config@.address("/api/omniplay/device-checkin/client-acknowledge-updates/"@),
            config@.key_to_send(),
            seq![
                ("playlist_updated"@, report.playlist_updated),
                ("schedule_updated"@, report.schedule_updated),
                ("content_updated"@, report.content_updated),
            ],
        ),
        request.method == Method::Post,
        request.url@ == config.url@ + "/api/omniplay/device-checkin/client-acknowledge-updates/"@
            + config.id@,
        request.headers.len() == 1,
        request.headers[0].0@ == "APIKEY"@,
        request.headers[0].1@ == (match config.key {
            Some(key) => key@,
            None => Seq::<char>::empty(),
        }),
        request.basic_auth is None,
        request.body matches Some(members) && members.len() == 3 && members[0].0@
            == "playlist_updated"@ && members[0].1 == report.playlist_updated && members[1].0@
            == "schedule_updated"@ && members[1].1 == report.schedule_updated && members[2].0@
            == "content_updated"@ && members[2].1 == report.content_updated,
{
    let mut members: Vec<(String, bool)> = Vec::new();
    members.push(("playlist_updated".to_string(), report.playlist_updated));
    members.push(("schedule_updated".to_string(), report.schedule_updated));
    members.push(("content_updated".to_string(), report.content_updated));
    assert(members@.map_values(|member: (String, bool)| (member.0@, member.1)) =~= seq![
        ("playlist_updated"@, report.playlist_updated),
        ("schedule_updated"@, report.schedule_updated),
        ("content_updated"@, report.content_updated),
    ]);
    post_request(
        config.address("/api/omniplay/device-checkin/client-acknowledge-updates/"),
        config.key_to_send(),
        members,
    )
}

/// Reports the layout as picked up.
pub fn acknowledge_layout_request(config: &Config) -> (request: Request)
    ensures
        request@ == post_with_key(
            config@.address("/api/omniplay/device-checkin/client-acknowledge-updates/"@),
            config@.key_to_send(),
            seq![("layout_updated"@, true)],
        ),
        request.method == Method::Post,
        request.url@ == config.url@ + "/api/omniplay/device-checkin/client-acknowledge-updates/"@
            + config.id@,
        request.headers.len() == 1,
        request.headers[0].0@ == "APIKEY"@,
        request.headers[0].1@ == (match config.key {
            Some(key) => key@,
            None => Seq::<char>::empty(),
        }),
        request.basic_auth is None,
        request.body matches Some(members) && members.len() == 1 && members[0].0@
            == "layout_updated"@ && members[0].1,
{
    let mut members: Vec<(String, bool)> = Vec::new();
    members.push(("layout_updated".to_string(), true));
    assert(members@.map_values(|member: (String, bool)| (member.0@, member.1)) =~= seq![
        ("layout_updated"@, true),
    ]);
    post_request(
        config.address("/api/omniplay/device-checkin/client-acknowledge-updates/"),
        config.key_to_send(),
        members,
    )
}

/// The status says that the request was fulfilled.
pub open spec fn success(status: u16) -> bool {
    200 <= status < 300
}

/// The status says that the request was fulfilled.
pub fn is_success(status: u16) -> (result: bool)
    ensures
        result == success(status),
        result <==> status / 100 == 2,
{
    200 <= status && status < 300
}

/// A request was fulfilled exactly if its status is in the two hundreds.
pub proof fn success_is_two_hundreds(status: u16)
    ensures
        success(status) <==> status / 100 == 2,
{
}

/// The list of videos to read out of a reply, or what to say about a refusal.
pub fn videos_reply(status: u16, text: String) -> (result: Result<String, String>)
    ensures
        match result {
            Ok(list) => success(status) && list@ == text@,
            Err(message) => !success(status) && message@ == "Failed to receive videos: "@ + text@,
        },
        result is Ok <==> 200 <= status <= 299,
{
    if is_success(status) {
        Ok(text)
    } else {
        Err("Failed to receive videos: ".to_string().concat(text.as_str()))
    }
}

/// Nothing if a reply holds the schedule, or what to say about a refusal, whose status reads as
/// `status_text`.
pub fn schedule_refusal(status: u16, status_text: &str) -> (result: Option<String>)
    ensures
        match result {
            Some(message) => !success(status) && message@ == "Failed to get timeline schedule: "@
                + status_text@,
            None => success(status),
        },
        result is None <==> 200 <= status <= 299,
{
    if is_success(status) {
        None
    } else {
        Some("Failed to get timeline schedule: ".to_string().concat(status_text))
    }
}

} // verus!
