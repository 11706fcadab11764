//! The registry of live instances, keyed by identifier.

use vstd::prelude::*;
use dashmap::DashMap;
use crate::instance::{
    OsrBrowserInstance, InstanceView, fresh, rebounded, navigated, with_focus, pulled, frame_of,
    info_of, fits,
};
use crate::surface::{holds_one_frame, written, lemma_one_frame_kept};
use crate::types::{BrowserError, BrowserInfo, CefBounds, FrameData, KeyEvent, MouseEvent};

verus! {

#[verifier::external_type_specification]
#[verifier::external_body]
#[verifier::reject_recursive_types(K)]
#[verifier::reject_recursive_types(V)]
#[verifier::reject_recursive_types(S)]
pub struct ExDashMap<K, V, S>(DashMap<K, V, S>);

/// What a map of instances holds: each identifier with the instance's state.
pub uninterp spec fn browsers_of(m: DashMap<String, OsrBrowserInstance>) -> Map<Seq<char>, InstanceView>;

/// Relies on `DashMap::new`: a new map is empty.
#[verifier::external_body]
fn map_new() -> (r: DashMap<String, OsrBrowserInstance>)
    ensures
        browsers_of(r) == no_entries(),
{
    DashMap::new()
}

/// Relies on `DashMap::contains_key`: whether an entry for `k` is present.
#[verifier::external_body]
fn map_contains(m: &DashMap<String, OsrBrowserInstance>, k: &str) -> (r: bool)
    ensures
        r == browsers_of(*m).contains_key(k@),
{
    m.contains_key(k)
}

/// Relies on `DashMap::insert`: the entry for `k` becomes `v`, replacing
/// any earlier one.
#[verifier::external_body]
fn map_insert(m: &mut DashMap<String, OsrBrowserInstance>, k: String, v: OsrBrowserInstance)
    ensures
        browsers_of(*final(m)) == browsers_of(*old(m)).insert(k@, v@),
{
    m.insert(k, v);
}

/// Relies on `DashMap::remove`: takes out the entry for `k` and hands its
/// value back, or finds none and changes nothing.
#[verifier::external_body]
fn map_remove(m: &mut DashMap<String, OsrBrowserInstance>, k: &str) -> (r: Option<OsrBrowserInstance>)
    ensures
        match r {
            Some(v) => {
                &&& browsers_of(*old(m)).contains_key(k@)
                &&& v@ == browsers_of(*old(m))[k@]
                &&& browsers_of(*final(m)) == browsers_of(*old(m)).remove(k@)
            },
            None => {
                &&& !browsers_of(*old(m)).contains_key(k@)
                &&& browsers_of(*final(m)) == browsers_of(*old(m))
            },
        },
{
    m.remove(k).map(|(_, v)| v)
}

/// Relies on `DashMap::iter`: every entry is visited once, so the keys come
/// out once each, in an order that the map does not promise.
#[verifier::external_body]
fn map_keys(m: &DashMap<String, OsrBrowserInstance>) -> (r: Vec<String>)
    ensures
        keys_listed(browsers_of(*m), r@),
{
    m.iter().map(|e| e.key().clone()).collect()
}

/// A map of instances with no entry.
pub open spec fn no_entries() -> Map<Seq<char>, InstanceView> {
    Map::empty()
}

/// `ks` lists the keys of `m`, each once.
pub open spec fn keys_listed(m: Map<Seq<char>, InstanceView>, ks: Seq<String>) -> bool {
    &&& forall|i: int, j: int| 0 <= i < j < ks.len() ==> ks[i]@ != ks[j]@
    &&& forall|i: int| 0 <= i < ks.len() ==> m.contains_key(#[trigger] ks[i]@)
    &&& forall|k: Seq<char>| m.contains_key(k) ==> exists|i: int| 0 <= i < ks.len() && #[trigger] ks[i]@ == k
}

/// Every entry is stored under its own identifier with a buffer of exactly
/// one frame, and at most one entry has focus.
pub open spec fn registry_wf(m: Map<Seq<char>, InstanceView>) -> bool {
    &&& forall|k: Seq<char>| m.contains_key(k) ==> #[trigger] m[k].id == k && holds_one_frame(m[k].surface)
    &&& forall|a: Seq<char>, b: Seq<char>|
        m.contains_key(a) && m.contains_key(b) && #[trigger] m[a].is_focused && #[trigger] m[b].is_focused ==> a == b
}

/// `m` with focus on `id` and on no other entry.
pub open spec fn refocused(m: Map<Seq<char>, InstanceView>, id: Seq<char>) -> Map<Seq<char>, InstanceView> {
    Map::new(|k: Seq<char>| m.contains_key(k), |k: Seq<char>| with_focus(m[k], k == id))
}

/// `m` with focus on no entry.
pub open spec fn unfocused(m: Map<Seq<char>, InstanceView>) -> Map<Seq<char>, InstanceView> {
    m.map_values(|v: InstanceView| with_focus(v, false))
}

/// `m` after every entry's frame has been pulled.
pub open spec fn all_pulled(m: Map<Seq<char>, InstanceView>) -> Map<Seq<char>, InstanceView> {
    m.map_values(|v: InstanceView| pulled(v))
}

/// `e` reports that no instance is called `id`.
pub open spec fn is_not_found(e: BrowserError, id: Seq<char>) -> bool {
    e matches BrowserError::NotFound(s) && s@ == id
}

/// `e` reports that an instance called `id` is already live.
pub open spec fn is_already_exists(e: BrowserError, id: Seq<char>) -> bool {
    e matches BrowserError::AlreadyExists(s) && s@ == id
}

/// After focusing a live instance, it is the one and only focused instance.
pub proof fn lemma_focus_exclusive(m: Map<Seq<char>, InstanceView>, id: Seq<char>)
    requires
        registry_wf(m),
        m.contains_key(id),
    ensures
        registry_wf(refocused(m, id)),
        refocused(m, id)[id].is_focused,
        forall|k: Seq<char>| #[trigger] refocused(m, id).contains_key(k) && refocused(m, id)[k].is_focused ==> k == id,
{
}

/// An identifier is live once created, so creating it again is refused;
/// once closed it is gone, so every operation that names it reports it
/// missing.
pub proof fn lemma_lifecycle(m: Map<Seq<char>, InstanceView>, id: Seq<char>, url: Seq<char>, bounds: CefBounds)
    ensures
        m.insert(id, fresh(id, url, bounds)).contains_key(id),
        !m.remove(id).contains_key(id),
        registry_wf(m) && !m.contains_key(id) ==> registry_wf(m.insert(id, fresh(id, url, bounds))),
{
}

/// Owns every live instance and enforces unique identifiers and focus
/// exclusivity.
pub struct BrowserManager {
    browsers: DashMap<String, OsrBrowserInstance>,
    cef_initialized: bool,
}

impl BrowserManager {
    /// Each identifier with the state of its instance.
    pub closed spec fn entries(&self) -> Map<Seq<char>, InstanceView> {
        browsers_of(self.browsers)
    }

    pub open spec fn wf(&self) -> bool {
        registry_wf(self.entries())
    }

    /// An empty registry.
    pub fn new() -> (r: BrowserManager)
        ensures
            r.wf(),
            r.entries() == no_entries(),
    {
        BrowserManager { browsers: map_new(), cef_initialized: true }
    }

    /// Starts a new instance `id` showing `url` within `bounds`; refused if
    /// `id` is already live.
    pub fn create_browser(&mut self, id: &str, url: &str, bounds: CefBounds) -> (r: Result<(), BrowserError>)
        requires
            old(self).wf(),
            fits(bounds),
        ensures
            final(self).wf(),
            match r {
                Ok(()) => {
                    &&& !old(self).entries().contains_key(id@)
                    &&& final(self).entries() == old(self).entries().insert(id@, fresh(id@, url@, bounds))
                },
                Err(e) => {
                    &&& old(self).entries().contains_key(id@)
                    &&& is_already_exists(e, id@)
                    &&& final(self).entries() == old(self).entries()
                },
            },
    {
        if map_contains(&self.browsers, id) {
            return Err(BrowserError::AlreadyExists(id.to_owned()));
        }
        let browser = OsrBrowserInstance::new(id, url, bounds);
        map_insert(&mut self.browsers, id.to_owned(), browser);
        Ok(())
    }

    /// Removes instance `id` and releases it.
    pub fn close_browser(&mut self, id: &str) -> (r: Result<(), BrowserError>)
        requires
            old(self).wf(),
        ensures
            final(self).wf(),
            match r {
                Ok(()) => {
                    &&& old(self).entries().contains_key(id@)
                    &&& final(self).entries() == old(self).entries().remove(id@)
                },
                Err(e) => {
                    &&& !old(self).entries().contains_key(id@)
                    &&& is_not_found(e, id@)
                    &&& final(self).entries() == old(self).entries()
                },
            },
    {
        match map_remove(&mut self.browsers, id) {
            Some(browser) => {
                browser.close();
                Ok(())
            },
            None => Err(BrowserError::NotFound(id.to_owned())),
        }
    }

    /// Moves or resizes instance `id`; its surface takes the clamped size.
    pub fn update_bounds(&mut self, id: &str, bounds: CefBounds) -> (r: Result<(), BrowserError>)
        requires
            old(self).wf(),
            fits(bounds),
        ensures
            final(self).wf(),
            match r {
                Ok(()) => {
                    &&& old(self).entries().contains_key(id@)
                    &&& final(self).entries() == old(self).entries().insert(
                        id@,
                        rebounded(old(self).entries()[id@], bounds),
                    )
                },
                Err(e) => {
                    &&& !old(self).entries().contains_key(id@)
                    &&& is_not_found(e, id@)
                    &&& final(self).entries() == old(self).entries()
                },
            },
    {
        match map_remove(&mut self.browsers, id) {
            Some(mut browser) => {
                browser.update_bounds(bounds);
                map_insert(&mut self.browsers, id.to_owned(), browser);
                assert(self.entries() =~= old(self).entries().insert(id@, rebounded(old(self).entries()[id@], bounds)));
                Ok(())
            },
            None => Err(BrowserError::NotFound(id.to_owned())),
        }
    }

    /// Points instance `id` at `url`.
    pub fn navigate(&mut self, id: &str, url: &str) -> (r: Result<(), BrowserError>)
        requires
            old(self).wf(),
        ensures
            final(self).wf(),
            match r {
                Ok(()) => {
                    &&& old(self).entries().contains_key(id@)
                    &&& final(self).entries() == old(self).entries().insert(
                        id@,
                        navigated(old(self).entries()[id@], url@),
                    )
                },
                Err(e) => {
                    &&& !old(self).entries().contains_key(id@)
                    &&& is_not_found(e, id@)
                    &&& final(self).entries() == old(self).entries()
                },
            },
    {
        match map_remove(&mut self.browsers, id) {
            Some(mut browser) => {
                browser.navigate(url);
                map_insert(&mut self.browsers, id.to_owned(), browser);
                assert(self.entries() =~= old(self).entries().insert(id@, navigated(old(self).entries()[id@], url@)));
                Ok(())
            },
            None => Err(BrowserError::NotFound(id.to_owned())),
        }
    }

    /// The frame of instance `id` if it is new since the last pull; pulling
    /// marks it seen, so each painted frame is handed out at most once.
    pub fn get_frame(&mut self, id: &str) -> (r: Result<Option<FrameData>, BrowserError>)
        requires
            old(self).wf(),
        ensures
            final(self).wf(),
            match r {
                Ok(f) => {
                    &&& old(self).entries().contains_key(id@)
                    &&& final(self).entries() == old(self).entries().insert(id@, pulled(old(self).entries()[id@]))
                    &&& match f {
                        Some(f) => frame_of(old(self).entries()[id@], f),
                        None => !old(self).entries()[id@].surface.dirty,
                    }
                },
                Err(e) => {
                    &&& !old(self).entries().contains_key(id@)
                    &&& is_not_found(e, id@)
                    &&& final(self).entries() == old(self).entries()
                },
            },
    {
        match map_remove(&mut self.browsers, id) {
            Some(mut browser) => {
                let frame = browser.get_frame();
                map_insert(&mut self.browsers, id.to_owned(), browser);
                assert(self.entries() =~= old(self).entries().insert(id@, pulled(old(self).entries()[id@])));
                Ok(frame)
            },
            None => Err(BrowserError::NotFound(id.to_owned())),
        }
    }

    /// Stores a frame that the rendering backend painted for instance `id`:
    /// `buffer` holds `width` by `height` pixels; one too short for that
    /// size is dropped and changes nothing.
    pub fn paint(&mut self, id: &str, buffer: &[u8], width: u32, height: u32) -> (r: Result<(), BrowserError>)
        requires
            old(self).wf(),
        ensures
            final(self).wf(),
            match r {
                Ok(()) => {
                    &&& old(self).entries().contains_key(id@)
                    &&& final(self).entries() == old(self).entries().insert(
                        id@,
                        InstanceView {
                            surface: written(old(self).entries()[id@].surface, buffer@, width, height),
                            ..old(self).entries()[id@]
                        },
                    )
                },
                Err(e) => {
                    &&& !old(self).entries().contains_key(id@)
                    &&& is_not_found(e, id@)
                    &&& final(self).entries() == old(self).entries()
                },
            },
    {
        let ghost m0 = self.entries();
        match map_remove(&mut self.browsers, id) {
            Some(mut browser) => {
                browser.paint(buffer, width, height);
                map_insert(&mut self.browsers, id.to_owned(), browser);
                proof {
                    lemma_one_frame_kept(m0[id@].surface, buffer@, width, height);
                }
                assert(self.entries() =~= m0.insert(
                    id@,
                    InstanceView { surface: written(m0[id@].surface, buffer@, width, height), ..m0[id@] },
                ));
                Ok(())
            },
            None => Err(BrowserError::NotFound(id.to_owned())),
        }
    }

    /// Hands a pointer event to instance `id`; the registry is unchanged.
    pub fn send_mouse_event(&mut self, id: &str, event: MouseEvent) -> (r: Result<(), BrowserError>)
        requires
            old(self).wf(),
        ensures
            final(self).wf(),
            final(self).entries() == old(self).entries(),
            r is Ok <==> old(self).entries().contains_key(id@),
            r matches Err(e) ==> is_not_found(e, id@),
    {
        match map_remove(&mut self.browsers, id) {
            Some(browser) => {
                browser.send_mouse_event(event);
                map_insert(&mut self.browsers, id.to_owned(), browser);
                assert(self.entries() =~= old(self).entries());
                Ok(())
            },
            None => Err(BrowserError::NotFound(id.to_owned())),
        }
    }

    /// Hands a keyboard event to instance `id`; the registry is unchanged.
    pub fn send_key_event(&mut self, id: &str, event: KeyEvent) -> (r: Result<(), BrowserError>)
        requires
            old(self).wf(),
        ensures
            final(self).wf(),
            final(self).entries() == old(self).entries(),
            r is Ok <==> old(self).entries().contains_key(id@),
            r matches Err(e) ==> is_not_found(e, id@),
    {
        match map_remove(&mut self.browsers, id) {
            Some(browser) => {
                browser.send_key_event(event);
                map_insert(&mut self.browsers, id.to_owned(), browser);
                assert(self.entries() =~= old(self).entries());
                Ok(())
            },
            None => Err(BrowserError::NotFound(id.to_owned())),
        }
    }

    /// Releases every instance.
    pub fn shutdown(&mut self)
        requires
            old(self).wf(),
        ensures
            final(self).wf(),
            final(self).entries() == no_entries(),
    {
        let keys = map_keys(&self.browsers);
        let ghost m0 = self.entries();
        let mut i: usize = 0;
        while i < keys.len()
            invariant
                keys_listed(m0, keys@),
                self.entries().dom().subset_of(m0.dom()),
                forall|k: Seq<char>| #[trigger] self.entries().contains_key(k) ==> self.entries()[k] == m0[k],
                forall|j: int| 0 <= j < i ==> !self.entries().contains_key(#[trigger] keys@[j]@),
            decreases keys.len() - i,
        {
            if let Some(browser) = map_remove(&mut self.browsers, keys[i].as_str()) {
                browser.close();
            }
            i = i + 1;
        }
        assert forall|k: Seq<char>| !self.entries().contains_key(k) by {
            if self.entries().contains_key(k) {
                let j = choose|j: int| 0 <= j < keys@.len() && #[trigger] keys@[j]@ == k;
            }
        }
        assert(self.entries() =~= no_entries());
        self.cef_initialized = false;
    }

    /// Clears the focus flag of every instance.
    fn clear_focus(&mut self)
        requires
            old(self).wf(),
        ensures
            final(self).wf(),
            final(self).entries() == unfocused(old(self).entries()),
    {
        let keys = map_keys(&self.browsers);
        let ghost m0 = self.entries();
        let mut i: usize = 0;
        while i < keys.len()
            invariant
                registry_wf(m0),
                keys_listed(m0, keys@),
                self.entries().dom() == m0.dom(),
                forall|j: int| 0 <= j < i ==> self.entries()[#[trigger] keys@[j]@] == with_focus(m0[keys@[j]@], false),
                forall|j: int| i <= j < keys@.len() ==> self.entries()[#[trigger] keys@[j]@] == m0[keys@[j]@],
            decreases keys.len() - i,
        {
            let key = &keys[i];
            if let Some(mut browser) = map_remove(&mut self.browsers, key.as_str()) {
                browser.set_focus(false);
                map_insert(&mut self.browsers, key.clone(), browser);
            }
            assert(self.entries().dom() =~= m0.dom());
            i = i + 1;
        }
        assert forall|k: Seq<char>| #[trigger] m0.contains_key(k) implies self.entries()[k] == with_focus(m0[k], false) by {
            let j = choose|j: int| 0 <= j < keys@.len() && #[trigger] keys@[j]@ == k;
        }
        assert(self.entries() =~= unfocused(m0));
    }

    /// Gives input focus to instance `id` and takes it from every other one.
    /// An unknown `id` is reported and changes nothing.
    pub fn focus_browser(&mut self, id: &str) -> (r: Result<(), BrowserError>)
        requires
            old(self).wf(),
        ensures
            final(self).wf(),
            match r {
                Ok(()) => {
                    &&& old(self).entries().contains_key(id@)
                    &&& final(self).entries() == refocused(old(self).entries(), id@)
                },
                Err(e) => {
                    &&& !old(self).entries().contains_key(id@)
                    &&& is_not_found(e, id@)
                    &&& final(self).entries() == old(self).entries()
                },
            },
    {
        if !map_contains(&self.browsers, id) {
            return Err(BrowserError::NotFound(id.to_owned()));
        }
        self.clear_focus();
        if let Some(mut browser) = map_remove(&mut self.browsers, id) {
            browser.set_focus(true);
            map_insert(&mut self.browsers, id.to_owned(), browser);
        }
        assert(self.entries() =~= refocused(old(self).entries(), id@));
        Ok(())
    }

    /// Pulls the frame of the live instance `key`.
    fn pull_one(&mut self, key: &String) -> (r: Option<FrameData>)
        requires
            old(self).wf(),
            old(self).entries().contains_key(key@),
        ensures
            final(self).wf(),
            final(self).entries() == old(self).entries().insert(key@, pulled(old(self).entries()[key@])),
            match r {
                Some(f) => frame_of(old(self).entries()[key@], f) && f.browser_id@ == key@,
                None => !old(self).entries()[key@].surface.dirty,
            },
    {
        let ghost m0 = self.entries();
        let mut frame: Option<FrameData> = None;
        if let Some(mut browser) = map_remove(&mut self.browsers, key.as_str()) {
            frame = browser.get_frame();
            map_insert(&mut self.browsers, key.clone(), browser);
        }
        assert(self.entries() =~= m0.insert(key@, pulled(m0[key@])));
        frame
    }

    /// Pulls every instance's new frame, skipping those with none; one
    /// frame per instance at most, in no promised order.
    pub fn get_all_frames(&mut self) -> (r: Vec<FrameData>)
        requires
            old(self).wf(),
        ensures
            final(self).wf(),
            final(self).entries() == all_pulled(old(self).entries()),
            forall|t: int| 0 <= t < r@.len() ==> {
                &&& old(self).entries().contains_key(#[trigger] r@[t].browser_id@)
                &&& frame_of(old(self).entries()[r@[t].browser_id@], r@[t])
            },
            forall|k: Seq<char>| #[trigger] old(self).entries().contains_key(k) && old(self).entries()[k].surface.dirty
                ==> exists|t: int| 0 <= t < r@.len() && #[trigger] r@[t].browser_id@ == k,
            forall|t: int, u: int| 0 <= t < u < r@.len() ==> r@[t].browser_id@ != r@[u].browser_id@,
    {
        let keys = map_keys(&self.browsers);
        let ghost m0 = self.entries();
        let mut frames: Vec<FrameData> = Vec::new();
        let mut i: usize = 0;
        while i < keys.len()
            invariant
                i <= keys@.len(),
                registry_wf(m0),
                keys_listed(m0, keys@),
                self.entries().dom() == m0.dom(),
                forall|j: int| 0 <= j < i ==> self.entries()[#[trigger] keys@[j]@] == pulled(m0[keys@[j]@]),
                forall|j: int| i <= j < keys@.len() ==> self.entries()[#[trigger] keys@[j]@] == m0[keys@[j]@],
                forall|t: int| 0 <= t < frames@.len() ==> exists|j: int| 0 <= j < i && #[trigger] keys@[j]@ == (#[trigger] frames@[t]).browser_id@,
                forall|t: int| 0 <= t < frames@.len() ==> frame_of(m0[(#[trigger] frames@[t]).browser_id@], frames@[t]),
                forall|j: int| 0 <= j < i && m0[#[trigger] keys@[j]@].surface.dirty
                    ==> exists|t: int| 0 <= t < frames@.len() && #[trigger] frames@[t].browser_id@ == keys@[j]@,
                forall|t: int, u: int| 0 <= t < u < frames@.len() ==> frames@[t].browser_id@ != frames@[u].browser_id@,
            decreases keys.len() - i,
        {
            let key = &keys[i];
            let ghost before = frames@;
            let frame = self.pull_one(key);
            if let Some(f) = frame {
                    frames.push(f);
                    proof {
                        let n = before.len() as int;
                        assert(frames@[n].browser_id@ == keys@[i as int]@);
                        assert forall|t: int| 0 <= t < n implies frames@[t].browser_id@ != keys@[i as int]@ by {
                            assert(frames@[t] == before[t]);
                            let j = choose|j: int| 0 <= j < i && #[trigger] keys@[j]@ == before[t].browser_id@;
                        }
                        assert forall|t: int| 0 <= t < frames@.len() implies exists|j: int|
                            0 <= j < i + 1 && #[trigger] keys@[j]@ == (#[trigger] frames@[t]).browser_id@ by {
                            if t < n {
                                assert(frames@[t] == before[t]);
                            } else {
                                assert(keys@[i as int]@ == frames@[t].browser_id@);
                            }
                        }
                    }
            }
            proof {
                assert forall|j: int| 0 <= j < i + 1 && m0[#[trigger] keys@[j]@].surface.dirty implies exists|t: int|
                    0 <= t < frames@.len() && #[trigger] frames@[t].browser_id@ == keys@[j]@ by {
                    if j < i {
                        let t = choose|t: int| 0 <= t < before.len() && #[trigger] before[t].browser_id@ == keys@[j]@;
                        assert(frames@[t] == before[t]);
                    } else {
                        assert(frames@.len() == before.len() + 1);
                        assert(frames@[before.len() as int].browser_id@ == keys@[j]@);
                    }
                }
            }
            assert(self.entries().dom() =~= m0.dom());
            i = i + 1;
        }
        assert forall|t: int| 0 <= t < frames@.len() implies m0.contains_key(#[trigger] frames@[t].browser_id@) by {
            let j = choose|j: int| 0 <= j < i && #[trigger] keys@[j]@ == frames@[t].browser_id@;
        }
        assert forall|k: Seq<char>| #[trigger] m0.contains_key(k) implies self.entries()[k] == pulled(m0[k]) by {
            let j = choose|j: int| 0 <= j < keys@.len() && #[trigger] keys@[j]@ == k;
        }
        assert(self.entries() =~= all_pulled(m0));
        assert forall|k: Seq<char>| #[trigger] m0.contains_key(k) && m0[k].surface.dirty implies exists|t: int|
            0 <= t < frames@.len() && #[trigger] frames@[t].browser_id@ == k by {
            let j = choose|j: int| 0 <= j < keys@.len() && #[trigger] keys@[j]@ == k;
        }
        frames
    }

    /// Describes the live instance `key`; the registry is left as it was.
    fn info_one(&mut self, key: &String) -> (r: BrowserInfo)
        requires
            old(self).wf(),
            old(self).entries().contains_key(key@),
        ensures
            final(self).entries() == old(self).entries(),
            info_of(old(self).entries()[key@], r),
            r.id@ == key@,
    {
        let ghost m0 = self.entries();
        let browser = map_remove(&mut self.browsers, key.as_str()).unwrap();
        let info = browser.get_info();
        map_insert(&mut self.browsers, key.clone(), browser);
        assert(self.entries() =~= m0);
        info
    }

    /// A description of every live instance, one each, in no promised
    /// order; the registry is left as it was.
    pub fn list_browsers(&mut self) -> (r: Vec<BrowserInfo>)
        requires
            old(self).wf(),
        ensures
            final(self).entries() == old(self).entries(),
            forall|t: int| 0 <= t < r@.len() ==> {
                &&& old(self).entries().contains_key(#[trigger] r@[t].id@)
                &&& info_of(old(self).entries()[r@[t].id@], r@[t])
            },
            forall|k: Seq<char>| #[trigger] old(self).entries().contains_key(k)
                ==> exists|t: int| 0 <= t < r@.len() && #[trigger] r@[t].id@ == k,
            forall|t: int, u: int| 0 <= t < u < r@.len() ==> r@[t].id@ != r@[u].id@,
    {
        let keys = map_keys(&self.browsers);
        let ghost m0 = self.entries();
        let mut infos: Vec<BrowserInfo> = Vec::new();
        let mut i: usize = 0;
        while i < keys.len()
            invariant
                i <= keys@.len(),
                registry_wf(m0),
                keys_listed(m0, keys@),
                self.entries() == m0,
                infos@.len() == i,
                forall|t: int| 0 <= t < i ==> (#[trigger] infos@[t]).id@ == keys@[t]@,
                forall|t: int| 0 <= t < i ==> info_of(m0[keys@[t]@], #[trigger] infos@[t]),
            decreases keys.len() - i,
        {
            let info = self.info_one(&keys[i]);
            infos.push(info);
            i = i + 1;
        }
        assert forall|k: Seq<char>| #[trigger] m0.contains_key(k) implies exists|t: int|
            0 <= t < infos@.len() && #[trigger] infos@[t].id@ == k by {
            let j = choose|j: int| 0 <= j < keys@.len() && #[trigger] keys@[j]@ == k;
            assert(infos@[j].id@ == k);
        }
        infos
    }

    /// Whether an instance called `id` is live.
    pub fn contains(&self, id: &str) -> (r: bool)
        ensures
            r == self.entries().contains_key(id@),
    {
        map_contains(&self.browsers, id)
    }

    /// Whether instance `id` has input focus; the registry is left as it was.
    pub fn is_focused(&mut self, id: &str) -> (r: Result<bool, BrowserError>)
        requires
            old(self).wf(),
        ensures
            final(self).entries() == old(self).entries(),
            match r {
                Ok(f) => old(self).entries().contains_key(id@) && f == old(self).entries()[id@].is_focused,
                Err(e) => !old(self).entries().contains_key(id@) && is_not_found(e, id@),
            },
    {
        match map_remove(&mut self.browsers, id) {
            Some(browser) => {
                let focused = browser.is_focused();
                map_insert(&mut self.browsers, id.to_owned(), browser);
                assert(self.entries() =~= old(self).entries());
                Ok(focused)
            },
            None => Err(BrowserError::NotFound(id.to_owned())),
        }
    }
}

} // verus!
