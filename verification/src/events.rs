use vstd::prelude::*;
use crate::keyed::StrMap;

verus! {

/// The browser events a page can be subscribed to.
#[derive(PartialEq, Eq, Structural, Clone, Copy, Debug)]
pub enum EventType {
    FrameNavigated,
    FrameDetached,
    DomContentLoaded,
    LoadEventFired,
    JavascriptDialogOpening,
    ConsoleAPICalled,
    BindingCalled,
    RequestWillBeSent,
    ResponseReceived,
    LoadingFinished,
    TargetCreated,
    DownloadWillBegin,
    FileChooserOpened,
}

} // verus!

verus! {

/// The last URL each page navigated to.
pub struct UrlCache {
    urls: StrMap<String>,
}

/// The text of the URLs of a map of them.
pub open spec fn url_texts(m: Map<Seq<char>, String>) -> Map<Seq<char>, Seq<char>> {
    m.map_values(|u: String| u@)
}

impl UrlCache {
    /// The cached URL of each page.
    pub closed spec fn urls(self) -> Map<Seq<char>, Seq<char>> {
        url_texts(self.urls.map())
    }

    /// An empty cache.
    pub fn new() -> (r: Self)
        ensures
            r.urls() == Map::<Seq<char>, Seq<char>>::empty(),
    {
        let r = UrlCache { urls: StrMap::new() };
        assert(r.urls() =~= Map::<Seq<char>, Seq<char>>::empty());
        r
    }

    /// The URL cached for `page_id`, if any.
    pub fn get(&self, page_id: &str) -> (r: Option<String>)
        ensures
            match r {
                Some(u) => self.urls().contains_key(page_id@) && self.urls()[page_id@] == u@,
                None => !self.urls().contains_key(page_id@),
            },
    {
        match self.urls.get(page_id) {
            Some(u) => Some(u.clone()),
            None => None,
        }
    }

    /// Caches `url` as the URL of `page_id`.
    pub fn set(&mut self, page_id: &str, url: &str)
        ensures
            final(self).urls() == old(self).urls().insert(page_id@, url@),
    {
        let ghost before = self.urls.map();
        self.urls.insert(page_id, String::from_str(url));
        assert(url_texts(self.urls.map()) =~= url_texts(before).insert(page_id@, url@));
    }

    /// Forgets the URL of `page_id`.
    pub fn remove(&mut self, page_id: &str)
        ensures
            final(self).urls() == old(self).urls().remove(page_id@),
    {
        let ghost before = self.urls.map();
        let _ = self.urls.take(page_id);
        assert(url_texts(self.urls.map()) =~= url_texts(before).remove(page_id@));
    }

    /// Notes an event of a page: a navigation with a frame URL caches that
    /// URL; any other event changes nothing.
    pub fn note_event(&mut self, page_id: &str, event_type: EventType, frame_url: Option<&str>)
        ensures
            final(self).urls() == (match frame_url {
                Some(u) => if event_type == EventType::FrameNavigated {
                    old(self).urls().insert(page_id@, u@)
                } else {
                    old(self).urls()
                },
                None => old(self).urls(),
            }),
    {
        if event_type == EventType::FrameNavigated {
            match frame_url {
                Some(u) => self.set(page_id, u),
                None => {},
            }
        }
    }
}

} // verus!
