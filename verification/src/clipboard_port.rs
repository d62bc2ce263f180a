//! What a platform clipboard port keeps: what it saw last, what it applied
//! itself, and what it is receiving.

use vstd::prelude::*;
use crate::clipboard_runtime::{
    ContentHash,
    PlatformKinds,
    RepresentationKey,
    RepresentationKind,
    RepresentationMeta,
};
use crate::identifiers::DeviceId;
use crate::secret::discard;
use crate::text::is_utf8;

verus! {

#[derive(Clone, Copy, Debug, PartialEq, Eq, Structural)]
pub enum ClipboardPortError {
    /// The platform clipboard failed.
    Platform,
    /// The representation is not supported here.
    Unsupported,
}

/// What this machine put on its clipboard for a peer.
#[derive(Clone, Copy, Debug, PartialEq, Eq, Structural)]
pub enum AppliedClipboard {
    Representation { origin: DeviceId, revision: u64, hash: ContentHash },
    Cleared { origin: DeviceId, revision: u64 },
}

#[derive(Debug, PartialEq, Eq)]
pub enum LocalClipboardChange {
    Cleared,
    Content(Vec<RepresentationMeta>),
}

#[derive(Debug, PartialEq, Eq)]
pub struct ClipboardObservation {
    pub revision: u64,
    pub change: LocalClipboardChange,
    pub applied: Option<AppliedClipboard>,
}

/// One form of the local clipboard content.
pub struct LocalRepresentation {
    pub kind: RepresentationKind,
    pub bytes: Vec<u8>,
    pub hash: ContentHash,
}

/// Images are never empty; text may be.
pub open spec fn fits(kind: RepresentationKind, byte_len: u64, limit: u64) -> bool {
    byte_len <= limit && !((kind == RepresentationKind::Png || kind == RepresentationKind::Bmp)
        && byte_len == 0)
}

/// Checks the size of local content against what this kind may have.
pub fn local_size_valid(kind: RepresentationKind, byte_len: u64, limit: u64) -> (valid: Result<
    (),
    ClipboardPortError,
>)
    ensures
        valid == if fits(kind, byte_len, limit) {
            Ok(())
        } else {
            Err::<(), _>(ClipboardPortError::Platform)
        },
{
    let image = kind == RepresentationKind::Png || kind == RepresentationKind::Bmp;
    if byte_len > limit || (image && byte_len == 0) {
        Err(ClipboardPortError::Platform)
    } else {
        Ok(())
    }
}

pub struct SinkModel {
    pub key: RepresentationKey,
    pub expected_len: usize,
    pub bytes: Seq<u8>,
}

struct ReceiveBuffer {
    key: RepresentationKey,
    expected_len: usize,
    bytes: Vec<u8>,
}

impl ReceiveBuffer {
    spec fn model(self) -> SinkModel {
        SinkModel { key: self.key, expected_len: self.expected_len, bytes: self.bytes@ }
    }
}

/// Where the content for `key` is being received, or -1.
pub open spec fn sink_place(sinks: Seq<SinkModel>, key: RepresentationKey) -> int
    decreases sinks.len(),
{
    if sinks.len() == 0 {
        -1
    } else if sinks.last().key == key {
        sinks.len() - 1
    } else {
        sink_place(sinks.drop_last(), key)
    }
}

/// Content of peers while it is being received. It never grows beyond what was
/// announced.
pub struct ReceiveBuffers {
    sinks: Vec<ReceiveBuffer>,
}

impl View for ReceiveBuffers {
    type V = Seq<SinkModel>;

    closed spec fn view(&self) -> Seq<SinkModel> {
        self.sinks@.map_values(|sink: ReceiveBuffer| sink.model())
    }
}

impl ReceiveBuffers {
    /// Nothing is longer than announced.
    pub open spec fn wf(&self) -> bool {
        forall|i: int|
            0 <= i < self@.len() ==> (#[trigger] self@[i]).bytes.len() <= self@[i].expected_len
    }

    pub fn new() -> (buffers: ReceiveBuffers)
        ensures
            buffers.wf(),
            buffers@ == Seq::<SinkModel>::empty(),
    {
        let buffers = ReceiveBuffers { sinks: Vec::new() };
        assert(buffers@ =~= Seq::<SinkModel>::empty());
        buffers
    }

    fn place(&self, key: RepresentationKey) -> (found: Option<usize>)
        ensures
            match found {
                Some(at) => at < self.sinks@.len() && at == sink_place(self@, key)
                    && self.sinks@[at as int].key == key,
                None => sink_place(self@, key) == -1,
            },
    {
        let ghost all = self@;
        let mut at: usize = self.sinks.len();
        assert(all.take(at as int) =~= all);
        while at > 0
            invariant
                at <= self.sinks@.len(),
                all == self@,
                sink_place(all, key) == sink_place(all.take(at as int), key),
            decreases at,
        {
            at = at - 1;
            let ghost longer = all.take(at + 1);
            assert(longer.drop_last() =~= all.take(at as int));
            assert(longer.last() == self.sinks@[at as int].model());
            if self.sinks[at].key == key {
                return Some(at);
            }
        }
        None
    }

    /// Starts to receive content, unless it is being received already, is not
    /// supported, or has a size that it may not have.
    pub fn begin_receive(
        &mut self,
        key: RepresentationKey,
        byte_len: u64,
        limit: u64,
        supported: &PlatformKinds,
    ) -> (begun: Result<(), ClipboardPortError>)
        requires
            old(self).wf(),
        ensures
            final(self).wf(),
            if !supported.has(key.kind) || !fits(key.kind, byte_len, limit) || sink_place(
                old(self)@,
                key,
            ) >= 0 {
                &&& begun == Err::<(), _>(ClipboardPortError::Unsupported)
                &&& final(self)@ == old(self)@
            } else if byte_len > usize::MAX {
                &&& begun == Err::<(), _>(ClipboardPortError::Platform)
                &&& final(self)@ == old(self)@
            } else {
                &&& begun is Ok
                &&& final(self)@ == old(self)@.push(
                    SinkModel { key, expected_len: byte_len as usize, bytes: seq![] },
                )
            },
    {
        if !supported.supports(key.kind) || local_size_valid(key.kind, byte_len, limit).is_err()
            || self.place(key).is_some() {
            return Err(ClipboardPortError::Unsupported);
        }
        let most: usize = usize::MAX;
        if byte_len > most as u64 {
            return Err(ClipboardPortError::Platform);
        }
        let sink = ReceiveBuffer { key, expected_len: byte_len as usize, bytes: Vec::new() };
        assert(sink.model().bytes =~= seq![]);
        self.sinks.push(sink);
        assert(self@ =~= old(self)@.push(
            SinkModel { key, expected_len: byte_len as usize, bytes: seq![] },
        ));
        Ok(())
    }

    /// Takes a chunk in. Chunks come without gaps, and not beyond what was
    /// announced.
    pub fn write_receive_chunk(&mut self, key: RepresentationKey, offset: u64, bytes: &Vec<u8>) -> (
        written: Result<(), ClipboardPortError>)
        requires
            old(self).wf(),
        ensures
            final(self).wf(),
            ({
                let at = sink_place(old(self)@, key);
                if at < 0 || offset != old(self)@[at].bytes.len() || offset + bytes@.len() > old(
                    self,
                )@[at].expected_len {
                    &&& written == Err::<(), _>(ClipboardPortError::Platform)
                    &&& final(self)@ == old(self)@
                } else {
                    &&& written is Ok
                    &&& final(self)@ == old(self)@.update(
                        at,
                        SinkModel { bytes: old(self)@[at].bytes + bytes@, ..old(self)@[at] },
                    )
                }
            }),
    {
        let at: usize = match self.place(key) {
            Some(at) => at,
            None => {
                return Err(ClipboardPortError::Platform);
            },
        };
        assert(self@[at as int] == self.sinks@[at as int].model());
        let held: usize = self.sinks[at].bytes.len();
        if offset != held as u64 || bytes.len() > self.sinks[at].expected_len - held {
            return Err(ClipboardPortError::Platform);
        }
        let mut sink = self.sinks.remove(at);
        let ghost before = sink.bytes@;
        let mut next: usize = 0;
        while next < bytes.len()
            invariant
                next <= bytes@.len(),
                sink.bytes@ == before + bytes@.take(next as int),
                sink.key == key,
                sink.expected_len == old(self).sinks@[at as int].expected_len,
            decreases bytes@.len() - next,
        {
            sink.bytes.push(bytes[next]);
            assert(sink.bytes@ =~= before + bytes@.take(next + 1));
            next = next + 1;
        }
        assert(bytes@.take(next as int) =~= bytes@);
        let ghost model = sink.model();
        self.sinks.insert(at, sink);
        assert(self@ =~= old(self)@.update(at as int, model));
        Ok(())
    }

    /// Ends receiving: hands out the content, and says whether it has the length
    /// that was announced.
    pub fn commit_receive(&mut self, key: RepresentationKey) -> (received: Option<
        (Vec<u8>, bool),
    >)
        requires
            old(self).wf(),
        ensures
            final(self).wf(),
            ({
                let at = sink_place(old(self)@, key);
                if at < 0 {
                    &&& received is None
                    &&& final(self)@ == old(self)@
                } else {
                    &&& received matches Some((bytes, whole)) && bytes@ == old(self)@[at].bytes
                        && whole == (bytes@.len() == old(self)@[at].expected_len)
                    &&& final(self)@ == old(self)@.remove(at)
                }
            }),
    {
        match self.place(key) {
            None => None,
            Some(at) => {
                assert(self@[at as int] == self.sinks@[at as int].model());
                let sink = self.sinks.remove(at);
                assert(self@ =~= old(self)@.remove(at as int));
                let whole = sink.bytes.len() == sink.expected_len;
                Some((sink.bytes, whole))
            },
        }
    }

    /// Gives up receiving. What was received does not stay in memory.
    pub fn abort_receive(&mut self, key: RepresentationKey)
        requires
            old(self).wf(),
        ensures
            final(self).wf(),
            ({
                let at = sink_place(old(self)@, key);
                final(self)@ == if at < 0 {
                    old(self)@
                } else {
                    old(self)@.remove(at)
                }
            }),
    {
        if let Some((bytes, _)) = self.commit_receive(key) {
            discard(bytes);
        }
    }
}

/// Content of these kinds is text.
pub open spec fn textual(kind: RepresentationKind) -> bool {
    kind == RepresentationKind::Utf8Text || kind == RepresentationKind::Html
}

/// Whether content that was received is what was announced, before it is applied:
/// whole, with the announced digest, in UTF-8 where it is text, and of a kind
/// that can be applied.
pub fn received_valid(
    bytes: &Vec<u8>,
    whole: bool,
    digest_matches: bool,
    kind: RepresentationKind,
) -> (valid: Result<(), ClipboardPortError>)
    ensures
        valid == if !whole || !digest_matches || textual(kind) && !vstd::utf8::valid_utf8(bytes@) {
            Err::<(), _>(ClipboardPortError::Platform)
        } else if kind == RepresentationKind::FileList {
            Err(ClipboardPortError::Unsupported)
        } else {
            Ok(())
        },
{
    if !whole || !digest_matches {
        return Err(ClipboardPortError::Platform);
    }
    let text = kind == RepresentationKind::Utf8Text || kind == RepresentationKind::Html;
    if text && !is_utf8(bytes) {
        return Err(ClipboardPortError::Platform);
    }
    if kind == RepresentationKind::FileList {
        return Err(ClipboardPortError::Unsupported);
    }
    Ok(())
}

/// The local clipboard as it was seen last.
pub struct LocalSnapshot {
    pub revision: u64,
    pub representations: Vec<LocalRepresentation>,
}

/// The first representation that `key` names, or -1.
pub open spec fn representation_place(
    representations: Seq<LocalRepresentation>,
    key: RepresentationKey,
    from: int,
) -> int
    decreases representations.len() - from,
{
    if from < 0 || from >= representations.len() {
        -1
    } else if representations[from].kind == key.kind && representations[from].hash == key.hash {
        from
    } else {
        representation_place(representations, key, from + 1)
    }
}

/// The bytes of a chunk: none beyond the end.
pub open spec fn chunk_of(bytes: Seq<u8>, offset: int, max_bytes: int) -> Option<Seq<u8>> {
    if offset >= bytes.len() {
        None
    } else if offset + max_bytes < bytes.len() {
        Some(bytes.subrange(offset, offset + max_bytes))
    } else {
        Some(bytes.subrange(offset, bytes.len() as int))
    }
}

/// What a port knows of the local clipboard.
pub struct ClipboardWatch {
    observed_revision: Option<u64>,
    snapshot: Option<LocalSnapshot>,
    applied: Option<(u64, AppliedClipboard)>,
}

pub struct WatchModel {
    pub observed_revision: Option<u64>,
    pub snapshot: Option<LocalSnapshot>,
    pub applied: Option<(u64, AppliedClipboard)>,
}

impl View for ClipboardWatch {
    type V = WatchModel;

    closed spec fn view(&self) -> WatchModel {
        WatchModel {
            observed_revision: self.observed_revision,
            snapshot: self.snapshot,
            applied: self.applied,
        }
    }
}

impl WatchModel {
    /// What this machine applied itself, if that is what is seen.
    pub open spec fn own(self, revision: u64) -> Option<AppliedClipboard> {
        match self.applied {
            Some((expected, marker)) => if expected == revision {
                Some(marker)
            } else {
                None
            },
            None => None,
        }
    }
}

/// Two representations of one kind.
pub open spec fn repeats_kind(representations: Seq<LocalRepresentation>) -> bool {
    exists|i: int, j: int|
        0 <= i < j < representations.len() && (#[trigger] representations[i]).kind == (
        #[trigger] representations[j]).kind
}

/// What the peer is told of local content.
pub open spec fn described(representations: Seq<LocalRepresentation>) -> Seq<RepresentationMeta> {
    representations.map_values(
        |item: LocalRepresentation|
            RepresentationMeta {
                kind: item.kind,
                byte_len: item.bytes@.len() as u64,
                hash: item.hash,
            },
    )
}

impl ClipboardWatch {
    pub fn new() -> (watch: ClipboardWatch)
        ensures
            watch@ == (WatchModel { observed_revision: None, snapshot: None, applied: None }),
    {
        ClipboardWatch { observed_revision: None, snapshot: None, applied: None }
    }

    /// Whether the clipboard has to be read.
    pub fn changed(&self, revision: u64) -> (changed: bool)
        ensures
            changed == (self@.observed_revision != Some(revision)),
    {
        self.observed_revision != Some(revision)
    }

    /// This machine put something on its clipboard, which made `native_revision`.
    pub fn mark_applied(&mut self, native_revision: u64, marker: AppliedClipboard)
        ensures
            final(self)@ == (WatchModel {
                applied: Some((native_revision, marker)),
                ..old(self)@
            }),
    {
        self.applied = Some((native_revision, marker));
    }

    fn take_applied(&mut self, revision: u64) -> (marker: Option<AppliedClipboard>)
        ensures
            marker == old(self)@.own(revision),
            final(self)@ == (WatchModel { applied: None, ..old(self)@ }),
    {
        match self.applied.take() {
            Some((expected, marker)) => if expected == revision {
                Some(marker)
            } else {
                None
            },
            None => None,
        }
    }

    /// Takes in a change whose content stays with the platform. Nothing is
    /// reported where nothing that can be exchanged changed.
    pub fn observe(&mut self, revision: u64, change: Option<LocalClipboardChange>) -> (observation:
        Option<ClipboardObservation>)
        ensures
            final(self)@ == (WatchModel {
                observed_revision: Some(revision),
                applied: None,
                ..old(self)@
            }),
            match change {
                None => observation is None,
                Some(known) => observation == Some(
                    ClipboardObservation {
                        revision,
                        change: known,
                        applied: old(self)@.own(revision),
                    },
                ),
            },
    {
        self.observed_revision = Some(revision);
        let applied = self.take_applied(revision);
        match change {
            None => None,
            Some(change) => Some(ClipboardObservation { revision, change, applied }),
        }
    }

    /// Takes in what was read of the clipboard. Two representations of one kind
    /// are a fault of the platform. Content that cannot be exchanged is not
    /// reported; an empty clipboard is.
    pub fn observe_content(
        &mut self,
        revision: u64,
        representations: Vec<LocalRepresentation>,
        native_types_empty: bool,
    ) -> (observation: Result<Option<ClipboardObservation>, ClipboardPortError>)
        ensures
            if repeats_kind(representations@) {
                &&& observation == Err::<Option<ClipboardObservation>, _>(
                    ClipboardPortError::Platform,
                )
                &&& final(self)@ == old(self)@
            } else if representations@.len() == 0 {
                if native_types_empty {
                    &&& observation == Ok::<_, ClipboardPortError>(
                        Some(
                            ClipboardObservation {
                                revision,
                                change: LocalClipboardChange::Cleared,
                                applied: old(self)@.own(revision),
                            },
                        ),
                    )
                    &&& final(self)@ == (WatchModel {
                        observed_revision: Some(revision),
                        snapshot: None,
                        applied: None,
                    })
                } else {
                    &&& observation == Ok::<Option<ClipboardObservation>, ClipboardPortError>(None)
                    &&& final(self)@ == (WatchModel {
                        observed_revision: Some(revision),
                        snapshot: None,
                        ..old(self)@
                    })
                }
            } else {
                &&& observation matches Ok(Some(seen)) && seen.revision == revision && seen.applied
                    == old(self)@.own(revision) && (seen.change matches LocalClipboardChange::Content(
                    metas,
                ) && metas@ == described(representations@))
                &&& final(self)@.observed_revision == Some(revision)
                &&& final(self)@.applied is None
                &&& final(self)@.snapshot == Some(LocalSnapshot { revision, representations })
            },
    {
        let mut at: usize = 0;
        while at < representations.len()
            invariant
                at <= representations@.len(),
                *self == *old(self),
                forall|i: int, j: int|
                    0 <= i < j < at ==> (#[trigger] representations@[i]).kind != (
                    #[trigger] representations@[j]).kind,
            decreases representations@.len() - at,
        {
            let mut before: usize = 0;
            while before < at
                invariant
                    before <= at < representations@.len(),
                    *self == *old(self),
                    forall|i: int|
                        0 <= i < before ==> (#[trigger] representations@[i]).kind
                            != representations@[at as int].kind,
                decreases at - before,
            {
                if representations[before].kind == representations[at].kind {
                    assert(repeats_kind(representations@)) by {
                        assert(representations@[before as int].kind
                            == representations@[at as int].kind);
                    }
                    return Err(ClipboardPortError::Platform);
                }
                before = before + 1;
            }
            at = at + 1;
        }
        assert(!repeats_kind(representations@));
        self.observed_revision = Some(revision);
        if representations.len() == 0 {
            self.snapshot = None;
            if !native_types_empty {
                return Ok(None);
            }
            let applied = self.take_applied(revision);
            return Ok(
                Some(
                    ClipboardObservation {
                        revision,
                        change: LocalClipboardChange::Cleared,
                        applied,
                    },
                ),
            );
        }
        let mut metas: Vec<RepresentationMeta> = Vec::new();
        let mut next: usize = 0;
        while next < representations.len()
            invariant
                next <= representations@.len(),
                metas@ == described(representations@).take(next as int),
            decreases representations@.len() - next,
        {
            let byte_len: u64 = representations[next].bytes.len() as u64;
            metas.push(
                RepresentationMeta {
                    kind: representations[next].kind,
                    byte_len,
                    hash: representations[next].hash,
                },
            );
            assert(metas@ =~= described(representations@).take(next + 1));
            next = next + 1;
        }
        assert(metas@ =~= described(representations@));
        let applied = self.take_applied(revision);
        self.snapshot = Some(LocalSnapshot { revision, representations });
        Ok(
            Some(
                ClipboardObservation {
                    revision,
                    change: LocalClipboardChange::Content(metas),
                    applied,
                },
            ),
        )
    }

    /// Reads a chunk of the local content that `key` names, from the revision
    /// that was seen last.
    pub fn read_local_chunk(
        &self,
        key: RepresentationKey,
        offset: u64,
        max_bytes: usize,
        chunk_limit: usize,
    ) -> (chunk: Result<Option<Vec<u8>>, ClipboardPortError>)
        ensures
            match self@.snapshot {
                Some(snapshot) => {
                    let at = representation_place(snapshot.representations@, key, 0);
                    if max_bytes == 0 || max_bytes > chunk_limit || snapshot.revision
                        != key.revision || at < 0 || offset > usize::MAX {
                        chunk == Err::<Option<Vec<u8>>, _>(ClipboardPortError::Platform)
                    } else {
                        chunk matches Ok(part) && match (
                            part,
                            chunk_of(
                                snapshot.representations@[at].bytes@,
                                offset as int,
                                max_bytes as int,
                            ),
                        ) {
                            (Some(bytes), Some(expected)) => bytes@ == expected,
                            (None, None) => true,
                            _ => false,
                        }
                    }
                },
                None => chunk == Err::<Option<Vec<u8>>, _>(ClipboardPortError::Platform),
            },
    {
        if max_bytes == 0 || max_bytes > chunk_limit {
            return Err(ClipboardPortError::Platform);
        }
        let snapshot = match &self.snapshot {
            Some(snapshot) => snapshot,
            None => {
                return Err(ClipboardPortError::Platform);
            },
        };
        if snapshot.revision != key.revision {
            return Err(ClipboardPortError::Platform);
        }
        let mut at: usize = 0;
        while at < snapshot.representations.len() && !(snapshot.representations[at].kind == key.kind
            && snapshot.representations[at].hash == key.hash)
            invariant
                at <= snapshot.representations@.len(),
                representation_place(snapshot.representations@, key, 0) == representation_place(
                    snapshot.representations@,
                    key,
                    at as int,
                ),
            decreases snapshot.representations@.len() - at,
        {
            at = at + 1;
        }
        if at == snapshot.representations.len() {
            return Err(ClipboardPortError::Platform);
        }
        let most: usize = usize::MAX;
        if offset > most as u64 {
            return Err(ClipboardPortError::Platform);
        }
        let start: usize = offset as usize;
        let bytes = &snapshot.representations[at].bytes;
        let total: usize = bytes.len();
        if start >= total {
            return Ok(None);
        }
        let end: usize = if max_bytes < total - start {
            start + max_bytes
        } else {
            total
        };
        let mut part: Vec<u8> = Vec::new();
        let mut next: usize = start;
        while next < end
            invariant
                start <= next <= end <= bytes@.len(),
                part@ == bytes@.subrange(start as int, next as int),
            decreases end - next,
        {
            part.push(bytes[next]);
            assert(part@ =~= bytes@.subrange(start as int, next + 1));
            next = next + 1;
        }
        Ok(Some(part))
    }
}

/// Content that comes in chunk by chunk, each from where the last one ended,
/// ends up whole: the chunks one after the other.
pub proof fn law_chunks_add_up(bytes: Seq<u8>, offset: int, max_bytes: int)
    requires
        0 <= offset < bytes.len(),
        max_bytes > 0,
    ensures
        chunk_of(bytes, offset, max_bytes) matches Some(part) && part.len() > 0 && offset
            + part.len() <= bytes.len() && bytes.take(offset) + part == bytes.take(
            offset + part.len(),
        ),
        chunk_of(bytes, bytes.len() as int, max_bytes) is None,
{
    let part = chunk_of(bytes, offset, max_bytes)->Some_0;
    assert(bytes.take(offset) + part =~= bytes.take(offset + part.len()));
}

/// Content fits within its limit, the limit included. Text may be empty; an image
/// may not.
pub proof fn law_contents_fit_their_limit(kind: RepresentationKind, byte_len: u64, limit: u64)
    ensures
        byte_len > limit ==> !fits(kind, byte_len, limit),
        0 < byte_len <= limit ==> fits(kind, byte_len, limit),
        byte_len == 0 ==> (fits(kind, byte_len, limit) <==> !(kind is Png) && !(kind is Bmp)),
        textual(kind) <==> kind is Utf8Text || kind is Html,
{
}

proof fn lemma_sink_place(sinks: Seq<SinkModel>, key: RepresentationKey)
    ensures
        -1 <= sink_place(sinks, key) < sinks.len(),
        sink_place(sinks, key) >= 0 ==> sinks[sink_place(sinks, key)].key == key,
        forall|i: int|
            0 <= i < sinks.len() && i > sink_place(sinks, key) ==> (#[trigger] sinks[i]).key != key,
    decreases sinks.len(),
{
    if sinks.len() > 0 && sinks.last().key != key {
        let rest = sinks.drop_last();
        lemma_sink_place(rest, key);
        assert forall|i: int| 0 <= i < sinks.len() && i > sink_place(sinks, key) implies (
        #[trigger] sinks[i]).key != key by {
            if i < rest.len() {
                assert(rest[i] == sinks[i]);
            }
        }
    }
}

proof fn lemma_representation_place(
    representations: Seq<LocalRepresentation>,
    key: RepresentationKey,
    from: int,
)
    requires
        0 <= from <= representations.len(),
    ensures
        ({
            let at = representation_place(representations, key, from);
            &&& at == -1 || from <= at < representations.len()
            &&& at >= 0 ==> representations[at].kind == key.kind && representations[at].hash
                == key.hash
            &&& forall|i: int|
                from <= i < representations.len() && (at < 0 || i < at) ==> !((
                #[trigger] representations[i]).kind == key.kind && representations[i].hash
                    == key.hash)
        }),
    decreases representations.len() - from,
{
    if from < representations.len() && !(representations[from].kind == key.kind
        && representations[from].hash == key.hash) {
        lemma_representation_place(representations, key, from + 1);
    }
}

/// What is received for a key, and what is held under its kind and digest, is
/// found where it is, and only there: of several representations the first.
pub proof fn law_contents_are_found_by_key(
    sinks: Seq<SinkModel>,
    representations: Seq<LocalRepresentation>,
    key: RepresentationKey,
    i: int,
)
    ensures
        ({
            let sink = sink_place(sinks, key);
            let held = representation_place(representations, key, 0);
            &&& sink >= 0 ==> sink < sinks.len() && sinks[sink].key == key
            &&& 0 <= i < sinks.len() && sinks[i].key == key ==> sink >= i
            &&& held >= 0 ==> held < representations.len() && representations[held].kind == key.kind
                && representations[held].hash == key.hash
            &&& 0 <= i < representations.len() && representations[i].kind == key.kind
                && representations[i].hash == key.hash ==> 0 <= held <= i
        }),
{
    lemma_sink_place(sinks, key);
    lemma_representation_place(representations, key, 0);
}

/// A chunk holds the bytes from its offset on, as many as were asked for or as
/// there are; at the end and beyond there is none.
pub proof fn law_chunks_hold_the_bytes_from_their_offset(
    bytes: Seq<u8>,
    offset: int,
    max_bytes: int,
    i: int,
)
    requires
        0 <= offset,
        0 <= max_bytes,
    ensures
        chunk_of(bytes, offset, max_bytes) is None <==> offset >= bytes.len(),
        chunk_of(bytes, offset, max_bytes) matches Some(chunk) ==> {
            &&& chunk.len() <= max_bytes
            &&& offset + chunk.len() <= bytes.len()
            &&& chunk.len() == max_bytes || offset + chunk.len() == bytes.len()
            &&& 0 <= i < chunk.len() ==> chunk[i] == bytes[offset + i]
        },
{
}

/// What is seen is this machine's own doing exactly if it has the revision that
/// applying it made.
pub proof fn law_own_changes_are_known_by_revision(watch: WatchModel, revision: u64)
    ensures
        watch.applied is None ==> watch.own(revision) is None,
        watch.applied matches Some((made, marker)) ==> {
            &&& made == revision ==> watch.own(revision) == Some(marker)
            &&& made != revision ==> watch.own(revision) is None
        },
{
}

/// The peer is told of each representation its kind, its length and its digest, in
/// their order; two of one kind are noticed wherever they stand.
pub proof fn law_contents_are_described_in_order(
    representations: Seq<LocalRepresentation>,
    i: int,
    j: int,
)
    requires
        0 <= i < representations.len(),
        representations[i].bytes@.len() <= u64::MAX,
    ensures
        described(representations).len() == representations.len(),
        described(representations)[i].kind == representations[i].kind,
        described(representations)[i].byte_len == representations[i].bytes@.len(),
        described(representations)[i].hash == representations[i].hash,
        i < j < representations.len() && representations[i].kind == representations[j].kind
            ==> repeats_kind(representations),
        representations.len() == 1 ==> !repeats_kind(representations),
        repeats_kind(representations) ==> exists|a: int, b: int|
            0 <= a < b < representations.len() && (#[trigger] representations[a]).kind == (
            #[trigger] representations[b]).kind,
{
}

/// What was received is applied only if it is whole, has the announced digest
/// and, as text, is UTF-8. A list of files is never applied, and is refused as
/// unsupported only where nothing else is wrong with it.
pub proof fn law_received_contents_are_checked(
    bytes: Vec<u8>,
    whole: bool,
    digest_matches: bool,
    kind: RepresentationKind,
    valid: Result<(), ClipboardPortError>,
)
    requires
        call_ensures(received_valid, (&bytes, whole, digest_matches, kind), valid),
    ensures
        valid is Ok <==> whole && digest_matches && !(kind is FileList) && (kind is Utf8Text
            || kind is Html ==> vstd::utf8::valid_utf8(bytes@)),
        valid matches Err(error) ==> (error is Unsupported <==> whole && digest_matches
            && kind is FileList),
        valid matches Err(error) ==> error is Unsupported || error is Platform,
{
}

/// Content of this device is offered only where it fits.
pub proof fn law_offered_contents_fit(
    kind: RepresentationKind,
    byte_len: u64,
    limit: u64,
    valid: Result<(), ClipboardPortError>,
)
    requires
        call_ensures(local_size_valid, (kind, byte_len, limit), valid),
    ensures
        valid is Ok <==> fits(kind, byte_len, limit),
        valid matches Err(error) ==> error is Platform,
{
}

/// A chunk is read of the revision it is asked of only, and is never longer
/// than was asked for.
pub proof fn law_chunks_are_read_of_their_revision(
    watch: ClipboardWatch,
    key: RepresentationKey,
    offset: u64,
    max_bytes: usize,
    chunk_limit: usize,
    chunk: Result<Option<Vec<u8>>, ClipboardPortError>,
)
    requires
        call_ensures(
            ClipboardWatch::read_local_chunk,
            (&watch, key, offset, max_bytes, chunk_limit),
            chunk,
        ),
    ensures
        chunk is Ok ==> (watch@.snapshot matches Some(snapshot) && snapshot.revision
            == key.revision),
        chunk is Ok ==> 0 < max_bytes <= chunk_limit,
        chunk matches Ok(Some(bytes)) ==> bytes@.len() <= max_bytes,
        chunk matches Err(error) ==> error is Platform,
{
}

/// A buffer grows only at its end and never beyond what was announced; chunks
/// of anything else are refused and change nothing.
pub proof fn law_buffers_grow_at_their_end(
    buffers: &mut ReceiveBuffers,
    key: RepresentationKey,
    offset: u64,
    bytes: Vec<u8>,
    written: Result<(), ClipboardPortError>,
)
    requires
        call_ensures(ReceiveBuffers::write_receive_chunk, (buffers, key, offset, &bytes), written),
    ensures
        written is Err ==> final(buffers)@ == old(buffers)@,
        written is Ok ==> {
            let at = sink_place(old(buffers)@, key);
            &&& at >= 0
            &&& old(buffers)@[at].bytes.len() == offset
            &&& offset + bytes@.len() <= old(buffers)@[at].expected_len
        },
        written matches Err(error) ==> error is Platform,
        final(buffers)@.len() == old(buffers)@.len(),
{
    lemma_sink_place(old(buffers)@, key);
}

/// Receiving begins once for each key, of a supported kind that fits, with
/// nothing received.
pub proof fn law_receiving_begins_empty(
    buffers: &mut ReceiveBuffers,
    key: RepresentationKey,
    byte_len: u64,
    limit: u64,
    supported: PlatformKinds,
    begun: Result<(), ClipboardPortError>,
)
    requires
        call_ensures(ReceiveBuffers::begin_receive, (buffers, key, byte_len, limit, &supported), begun),
    ensures
        begun is Err ==> final(buffers)@ == old(buffers)@,
        begun is Ok ==> {
            &&& supported.has(key.kind)
            &&& fits(key.kind, byte_len, limit)
            &&& final(buffers)@.len() == old(buffers)@.len() + 1
            &&& final(buffers)@.last().key == key
            &&& final(buffers)@.last().bytes.len() == 0
            &&& final(buffers)@.last().expected_len == byte_len
        },
        !supported.has(key.kind) ==> (begun matches Err(ClipboardPortError::Unsupported)),
        !fits(key.kind, byte_len, limit) ==> (begun matches Err(ClipboardPortError::Unsupported)),
{
}

/// What is committed leaves the buffers and counts as whole exactly if all of
/// it came.
pub proof fn law_committed_contents_leave_the_buffers(
    buffers: &mut ReceiveBuffers,
    key: RepresentationKey,
    received: Option<(Vec<u8>, bool)>,
)
    requires
        call_ensures(ReceiveBuffers::commit_receive, (buffers, key), received),
    ensures
        received is None ==> final(buffers)@ == old(buffers)@,
        received is None <==> sink_place(old(buffers)@, key) < 0,
        received matches Some((bytes, whole)) ==> {
            let at = sink_place(old(buffers)@, key);
            &&& bytes@ == old(buffers)@[at].bytes
            &&& whole <==> bytes@.len() == old(buffers)@[at].expected_len
        },
{
}

/// Content is observed under its revision, and as this device's own only where
/// this device applied it; an empty clipboard that holds nothing native either
/// was cleared.
pub proof fn law_contents_are_observed(
    watch: &mut ClipboardWatch,
    revision: u64,
    representations: Vec<LocalRepresentation>,
    native_types_empty: bool,
    observation: Result<Option<ClipboardObservation>, ClipboardPortError>,
)
    requires
        call_ensures(
            ClipboardWatch::observe_content,
            (watch, revision, representations, native_types_empty),
            observation,
        ),
    ensures
        observation is Err <==> repeats_kind(representations@),
        observation is Err ==> final(watch)@ == old(watch)@,
        observation is Ok ==> final(watch)@.observed_revision == Some(revision),
        observation matches Ok(Some(seen)) ==> {
            &&& seen.revision == revision
            &&& seen.applied == old(watch)@.own(revision)
            &&& seen.change is Cleared <==> representations@.len() == 0
            &&& seen.change is Content ==> final(watch)@.snapshot is Some
            &&& final(watch)@.applied is None
        },
        observation matches Ok(None) ==> representations@.len() == 0 && !native_types_empty,
        observation is Ok && representations@.len() == 0 && native_types_empty ==> (
        observation matches Ok(Some(_))),
{
}

} // verus!
