use vstd::prelude::*;

verus! {

/// Category of a media discoverer.
#[derive(Clone, Copy, PartialEq, Eq, Structural, Hash, Debug)]
pub enum MediaDiscovererCategory {
    /// Devices, like portable music player.
    Devices,
    /// LAN/WAN services, like Upnp, SMB, or SAP.
    LAN,
    /// Podcasts.
    Podcasts,
    /// Local directories, like Video, Music or Pictures directories.
    LocalDirs,
}

/// The integer tag that the native library uses for a category.
pub open spec fn category_tag(c: MediaDiscovererCategory) -> nat {
    match c {
        MediaDiscovererCategory::Devices => 0,
        MediaDiscovererCategory::LAN => 1,
        MediaDiscovererCategory::Podcasts => 2,
        MediaDiscovererCategory::LocalDirs => 3,
    }
}

/// Whether `tag` is the native tag of some category.
pub open spec fn is_category_tag(tag: nat) -> bool {
    tag < 4
}

/// The category whose native tag is `tag`.
pub open spec fn category_of_tag(tag: nat) -> MediaDiscovererCategory
    recommends
        is_category_tag(tag),
{
    if tag == 0 {
        MediaDiscovererCategory::Devices
    } else if tag == 1 {
        MediaDiscovererCategory::LAN
    } else if tag == 2 {
        MediaDiscovererCategory::Podcasts
    } else {
        MediaDiscovererCategory::LocalDirs
    }
}

impl MediaDiscovererCategory {
    /// The native tag handed to the library's enumeration call.
    pub fn to_tag(self) -> (r: u32)
        ensures
            r as nat == category_tag(self),
            is_category_tag(r as nat),
    {
        match self {
            MediaDiscovererCategory::Devices => 0,
            MediaDiscovererCategory::LAN => 1,
            MediaDiscovererCategory::Podcasts => 2,
            MediaDiscovererCategory::LocalDirs => 3,
        }
    }

    /// The category that a native tag stands for, if any.
    pub fn from_tag(tag: u32) -> (r: Option<MediaDiscovererCategory>)
        ensures
            r is Some <==> is_category_tag(tag as nat),
            r is Some ==> r->0 == category_of_tag(tag as nat),
    {
        if tag == 0 {
            Some(MediaDiscovererCategory::Devices)
        } else if tag == 1 {
            Some(MediaDiscovererCategory::LAN)
        } else if tag == 2 {
            Some(MediaDiscovererCategory::Podcasts)
        } else if tag == 3 {
            Some(MediaDiscovererCategory::LocalDirs)
        } else {
            None
        }
    }
}

/// Reading a category back from its native tag gives the category again, and
/// no two categories share a tag: the tag mapping is a bijection between the
/// four categories and the tags below four.
pub proof fn lemma_category_tag_round_trip(c: MediaDiscovererCategory, d: MediaDiscovererCategory, tag: nat)
    ensures
        is_category_tag(category_tag(c)),
        category_of_tag(category_tag(c)) == c,
        category_tag(c) == category_tag(d) ==> c == d,
        is_category_tag(tag) ==> category_tag(category_of_tag(tag)) == tag,
{
}

/// One discoverer service as the native library reports it, before decoding:
/// each text is absent where it could not be read as UTF-8, and the category
/// is the native tag.
#[derive(Clone, Debug)]
pub struct RawDescription {
    pub name: Option<String>,
    pub long_name: Option<String>,
    pub cat: u32,
}

/// Media discoverer description
#[derive(Clone, PartialEq, Eq, Hash, Debug)]
pub struct MediaDiscovererDescription {
    pub name: String,
    pub long_name: String,
    pub cat: MediaDiscovererCategory,
}

/// A text that could be read, or the empty text where it could not.
pub open spec fn text_or_empty(t: Option<String>) -> Seq<char> {
    match t {
        Some(s) => s@,
        None => Seq::empty(),
    }
}

/// Whether every record carries the tag of a category.
pub open spec fn all_tags_valid(records: Seq<RawDescription>) -> bool {
    forall|i: int| 0 <= i < records.len() ==> is_category_tag(#[trigger] records[i].cat as nat)
}

/// Whether `d` is the decoding of `raw`.
pub open spec fn describes(d: MediaDiscovererDescription, raw: RawDescription) -> bool {
    &&& d.name@ == text_or_empty(raw.name)
    &&& d.long_name@ == text_or_empty(raw.long_name)
    &&& d.cat == category_of_tag(raw.cat as nat)
}

/// A record enumerated under category `c` carries `c`'s tag; decoding it gives
/// back `c`, and `c`'s tag is derived from it again.
pub proof fn lemma_described_category_round_trip(
    c: MediaDiscovererCategory,
    raw: RawDescription,
    d: MediaDiscovererDescription,
)
    requires
        raw.cat as nat == category_tag(c),
        describes(d, raw),
    ensures
        d.cat == c,
        category_tag(d.cat) == raw.cat as nat,
{
}

fn owned_text(t: &Option<String>) -> (r: String)
    ensures
        r@ == text_or_empty(*t),
{
    match t {
        Some(s) => s.clone(),
        None => String::new(),
    }
}

impl MediaDiscovererDescription {
    /// Decodes one record into an owned description.
    pub fn from_raw(raw: &RawDescription) -> (r: MediaDiscovererDescription)
        requires
            is_category_tag(raw.cat as nat),
        ensures
            describes(r, *raw),
    {
        let cat = MediaDiscovererCategory::from_tag(raw.cat);
        MediaDiscovererDescription {
            name: owned_text(&raw.name),
            long_name: owned_text(&raw.long_name),
            cat: cat.unwrap(),
        }
    }
}

/// The list of media that a discoverer fills, held by its native handle.
pub struct MediaList {
    ptr: usize,
}

impl MediaList {
    #[verifier::type_invariant]
    spec fn wf(self) -> bool {
        self.ptr != 0
    }

    /// The native handle, as an address.
    pub closed spec fn handle(self) -> nat {
        self.ptr as nat
    }

    /// Returns the native handle; ownership stays with the list.
    pub fn raw(&self) -> (r: usize)
        ensures
            r as nat == self.handle(),
            r != 0,
    {
        proof {
            use_type_invariant(self);
        }
        self.ptr
    }
}

/// LibVLC media discovery finds available media via various means.
///
/// A value owns one native handle, never null. It is live until `release`
/// hands the handle back for freeing, which happens exactly once.
pub struct MediaDiscoverer {
    ptr: usize,
    live: bool,
}

impl MediaDiscoverer {
    #[verifier::type_invariant]
    spec fn wf(self) -> bool {
        self.ptr != 0
    }

    /// The native handle, as an address.
    pub closed spec fn handle(self) -> nat {
        self.ptr as nat
    }

    /// Whether the handle has not been released yet.
    pub closed spec fn is_live(self) -> bool {
        self.live
    }

    /// What a release hands back: the handle the first time, nothing after.
    pub open spec fn release_result(self) -> Option<usize> {
        if self.is_live() {
            Some(self.handle() as usize)
        } else {
            None
        }
    }

    /// How many of `n` successive releases hand a handle back.
    pub open spec fn handles_released(self, n: nat) -> nat
        decreases n,
    {
        if n == 0 {
            0
        } else {
            (if self.release_result() is Some { 1nat } else { 0nat })
                + self.released().handles_released((n - 1) as nat)
        }
    }

    /// The value after a release.
    pub closed spec fn released(self) -> MediaDiscoverer {
        MediaDiscoverer { ptr: self.ptr, live: false }
    }

    /// Wraps the handle that the native constructor returned; a null handle
    /// (no such backend, or no memory) gives nothing.
    pub fn new(ptr: usize) -> (r: Option<MediaDiscoverer>)
        ensures
            r is None <==> ptr == 0,
            r is Some ==> r->0.handle() == ptr as nat && r->0.is_live(),
    {
        if ptr == 0 {
            None
        } else {
            Some(MediaDiscoverer { ptr, live: true })
        }
    }

    /// Start media discovery, given the status code of the native start:
    /// zero is success, anything else failure.
    pub fn start(&self, status: i32) -> (r: Result<(), ()>)
        requires
            self.is_live(),
        ensures
            r is Ok <==> status == 0,
    {
        if status == 0 {
            Ok(())
        } else {
            Err(())
        }
    }

    /// Stop media discovery: returns the handle on which the native stop is
    /// issued. The wrapper itself is left as it was, so it may be stopped any
    /// number of times and started again.
    pub fn stop(&self) -> (r: usize)
        requires
            self.is_live(),
        ensures
            r as nat == self.handle(),
    {
        self.ptr
    }

    /// Get media service discover media list, given the handle that the
    /// native call returned; a null handle gives nothing.
    pub fn media_list(&self, list_ptr: usize) -> (r: Option<MediaList>)
        requires
            self.is_live(),
        ensures
            r is None <==> list_ptr == 0,
            r is Some ==> r->0.handle() == list_ptr as nat,
    {
        if list_ptr == 0 {
            None
        } else {
            Some(MediaList { ptr: list_ptr })
        }
    }

    /// Query if media service discover object is running, given the native
    /// status: zero is false, anything else true.
    pub fn is_running(&self, status: i32) -> (r: bool)
        requires
            self.is_live(),
        ensures
            r == (status != 0),
    {
        status != 0
    }

    /// Get media discoverer services from the records that the native
    /// enumeration produced. No record at all is a failure, as the native
    /// call does not tell an error from an empty result; otherwise each
    /// record is decoded, in order.
    pub fn list_get(records: &Vec<RawDescription>) -> (r: Result<Vec<MediaDiscovererDescription>, ()>)
        requires
            all_tags_valid(records@),
        ensures
            r is Err <==> records@.len() == 0,
            r is Ok ==> r->Ok_0@.len() == records@.len(),
            r is Ok ==> forall|i: int|
                0 <= i < records@.len() ==> describes(#[trigger] r->Ok_0@[i], records@[i]),
    {
        if records.len() == 0 {
            return Err(());
        }
        let mut array: Vec<MediaDiscovererDescription> = Vec::new();
        let mut index: usize = 0;
        while index < records.len()
            invariant
                all_tags_valid(records@),
                index <= records@.len(),
                array@.len() == index,
                forall|i: int| 0 <= i < index ==> describes(#[trigger] array@[i], records@[i]),
            decreases records@.len() - index,
        {
            let item = MediaDiscovererDescription::from_raw(&records[index]);
            array.push(item);
            index += 1;
        }
        Ok(array)
    }

    /// Returns the native handle; ownership stays with the discoverer.
    pub fn raw(&self) -> (r: usize)
        ensures
            r as nat == self.handle(),
            r != 0,
    {
        proof {
            use_type_invariant(self);
        }
        self.ptr
    }

    /// Hands the handle back for the native release the first time it is
    /// called, and nothing after: the handle is freed exactly once.
    pub fn release(&mut self) -> (r: Option<usize>)
        ensures
            r == old(self).release_result(),
            *final(self) == old(self).released(),
            !final(self).is_live(),
    {
        proof {
            use_type_invariant(&*self);
        }
        if self.live {
            self.live = false;
            Some(self.ptr)
        } else {
            None
        }
    }
}

/// However many times a live discoverer is released, exactly one release
/// hands its handle back, and that is the first.
pub proof fn lemma_release_exactly_once(d: MediaDiscoverer, n: nat)
    requires
        d.is_live(),
        n >= 1,
    ensures
        d.handles_released(n) == 1,
        d.release_result() == Some(d.handle() as usize),
        d.released().handles_released((n - 1) as nat) == 0,
{
    lemma_released_stays_released(d.released(), (n - 1) as nat);
}

proof fn lemma_released_stays_released(d: MediaDiscoverer, n: nat)
    requires
        !d.is_live(),
    ensures
        d.handles_released(n) == 0,
    decreases n,
{
    if n > 0 {
        lemma_released_stays_released(d.released(), (n - 1) as nat);
    }
}

} // verus!
