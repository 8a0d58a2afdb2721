//! URIs of a relaunch request (`onNewWant`): what the `Opened` event lists.
use vstd::prelude::*;

use crate::event::Event;

verus! {

/// What `url::Url::parse` gives for a string: `Some` of the URL's serialized
/// form when the string parses, `None` when it does not.
pub uninterp spec fn url_parse(s: Seq<char>) -> Option<Seq<char>>;

/// Parses a URL with `url::Url::parse` and returns its serialized form.
///
/// Trusted: the result is `url_parse` of the input, a function of the input
/// alone (the parser reads nothing else); what `url_parse` is on a given
/// string is the `url` crate's WHATWG parser and is not stated here.
#[verifier::external_body]
fn parse_url(s: &str) -> (r: Option<String>)
    ensures
        match r {
            Some(u) => url_parse(s@) == Some(u@),
            None => url_parse(s@) is None,
        },
{
    match url::Url::parse(s) {
        Ok(u) => Some(String::from(u)),
        Err(_) => None,
    }
}

/// The URLs listed for a relaunch URI: none for an empty URI, the parsed URL
/// when it parses, none when it does not.
pub open spec fn want_urls(uri: Seq<char>) -> Seq<Seq<char>> {
    if uri.len() == 0 {
        Seq::empty()
    } else {
        match url_parse(uri) {
            Some(u) => seq![u],
            None => Seq::empty(),
        }
    }
}

/// `event` is the `Opened` event listing exactly `urls`.
pub open spec fn is_opened_with(event: Event, urls: Seq<Seq<char>>) -> bool {
    match event {
        Event::Opened { urls: v } => v@.len() == urls.len() && forall|i: int|
            0 <= i < urls.len() ==> #[trigger] v@[i]@ == urls[i],
        _ => false,
    }
}

/// The `Opened` event for the result of parsing a relaunch URI: it lists
/// the parsed URL, or nothing when there is none.
pub fn opened_event_of(parsed: Option<String>) -> (event: Event)
    ensures
        is_opened_with(
            event,
            match parsed {
                Some(u) => seq![u@],
                None => Seq::empty(),
            },
        ),
{
    let mut urls: Vec<String> = Vec::new();
    if let Some(u) = parsed {
        urls.push(u);
    }
    Event::Opened { urls }
}

/// The `Opened` event of a relaunch. It is emitted for every relaunch, also
/// with no URI: the relaunch itself is the signal (a second instance is never
/// created).
pub fn opened_event(uri: &str) -> (event: Event)
    ensures
        is_opened_with(event, want_urls(uri@)),
{
    if uri.unicode_len() == 0 {
        opened_event_of(None)
    } else {
        opened_event_of(parse_url(uri))
    }
}

} // verus!
