//! The shader sources and the segment store that assembles the fragment
//! shader from fixed text and watched files.
use vstd::prelude::*;

use crate::dirty::{consumed, has_bit, lemma_consumed_bit, DirtySet, MAX_STREAMS};
use crate::text::{count_newlines, lemma_count_newlines_concat, newline_count};

verus! {

pub const RENDER_VERT_SRC: &'static str = "
#version 450 core
layout (location = 0) in vec3 Position;
uniform float iAspect;

out vec2 uv;

void main()
{
    uv = Position.xy * 0.5;
    uv.x *= iAspect;
    gl_Position = vec4(Position, 1.0);
}
";

pub const RENDER_FRAG_HEADER: &'static str = "
#version 450 core
in vec2 uv;
uniform float iTime;
uniform float iDeltaTime;
uniform uint iFrame;
uniform float iAspect;
uniform vec2 iResolution;

out vec4 color;
";

pub const RENDER_FRAG_STD_BODY: &'static str = "
void main()
{
    float rad = 0.4 + (sin(iTime) * 0.5 + 0.5) * 0.1;
    color = vec4(1.0f, 0.5f, 0.2f, 1.0f) * smoothstep(rad, rad-0.001, length(uv));
}
";

pub const POST_VERT_SRC: &'static str = "
#version 450 core
layout (location = 0) in vec3 Position;

out vec2 uv;

void main()
{
    uv = Position.xy * 0.5 + vec2(0.5);
    gl_Position = vec4(Position, 1.0);
}
";

pub const POST_FRAG_SRC: &'static str = "
#version 450 core
in vec2 uv;
uniform sampler2D tex;

out vec4 color;

void main()
{
    color = texture(tex, uv);
}
";

/// The name under which fixed segments appear in the diagnostic map.
pub const INTERNAL_NAME: &'static str = "frag-internal";

/// One piece of the fragment shader: fixed text, or the path of a file whose
/// content is read at build time.
pub enum StreamElement {
    Static(String),
    Streamed(String),
}

/// The assembled fragment source, with each segment's line count and name in
/// source order.
pub struct Assembly {
    pub source: String,
    pub sections: Vec<(usize, String)>,
}

/// Why a build produced no source.
#[derive(PartialEq, Eq)]
pub enum BuildError {
    /// More streamed segments than the dirty set can track.
    TooManyStreams,
    /// The number of file contents handed in differs from the number of files
    /// that the build reads.
    ReadCountMismatch,
    /// A file could not be read; the message says why.
    ReadFailed(String),
}

impl BuildError {
    /// A message for the user.
    pub fn message(&self) -> (r: String)
        ensures
            self is TooManyStreams ==> r@ == "Can only support up to 31 streamed files."@,
            self is ReadCountMismatch ==> r@ == "Frag: file contents do not match the files to read."@,
            self matches BuildError::ReadFailed(m) ==> r@ == m@,
    {
        match self {
            BuildError::TooManyStreams => String::from_str("Can only support up to 31 streamed files."),
            BuildError::ReadCountMismatch => String::from_str("Frag: file contents do not match the files to read."),
            BuildError::ReadFailed(m) => m.clone(),
        }
    }
}

/// The number of streamed segments in `segs`.
pub open spec fn stream_count(segs: Seq<StreamElement>) -> nat
    decreases segs.len(),
{
    if segs.len() == 0 {
        0
    } else {
        stream_count(segs.drop_last()) + if segs.last() is Streamed {
            1nat
        } else {
            0nat
        }
    }
}

/// Whether a build reads streamed segment `k` again: on a full build, or when
/// its bit is set in the snapshot.
pub open spec fn needs_read(all: bool, snapshot: u32, k: nat) -> bool {
    all || (k < 32 && has_bit(snapshot, k as u32))
}

/// How many of the streamed segments below `k` a build reads.
pub open spec fn reads_before(all: bool, snapshot: u32, k: nat) -> nat
    decreases k,
{
    if k == 0 {
        0
    } else {
        reads_before(all, snapshot, (k - 1) as nat) + if needs_read(all, snapshot, (k - 1) as nat) {
            1nat
        } else {
            0nat
        }
    }
}

/// The text of a file read, or nothing for a failed read.
pub open spec fn read_text(r: Result<String, String>) -> Seq<char> {
    match r {
        Ok(t) => t@,
        Err(_) => Seq::empty(),
    }
}

/// The cache after a build: the fresh text for each streamed segment that it
/// reads (the contents come in the order of those segments), the cached text
/// for the others.
pub open spec fn refreshed(
    cache: Seq<Seq<char>>,
    all: bool,
    snapshot: u32,
    fresh: Seq<Result<String, String>>,
) -> Seq<Seq<char>> {
    Seq::new(
        cache.len(),
        |k: int|
            if needs_read(all, snapshot, k as nat) {
                read_text(fresh[reads_before(all, snapshot, k as nat) as int])
            } else {
                cache[k]
            },
    )
}

/// The text of segment `j`, with `texts` the texts of the streamed segments.
pub open spec fn segment_text(segs: Seq<StreamElement>, texts: Seq<Seq<char>>, j: int) -> Seq<
    char,
> {
    match segs[j] {
        StreamElement::Static(t) => t@,
        StreamElement::Streamed(_) => texts[stream_count(segs.take(j)) as int],
    }
}

/// The name of segment `j` in the diagnostic map: its path if it is streamed.
pub open spec fn segment_name(segs: Seq<StreamElement>, j: int) -> Seq<char> {
    match segs[j] {
        StreamElement::Static(_) => INTERNAL_NAME@,
        StreamElement::Streamed(p) => p@,
    }
}

/// The first `j` segments' texts, concatenated in order.
pub open spec fn source_of(segs: Seq<StreamElement>, texts: Seq<Seq<char>>, j: int) -> Seq<char>
    decreases j,
{
    if j <= 0 {
        Seq::empty()
    } else {
        source_of(segs, texts, j - 1) + segment_text(segs, texts, j - 1)
    }
}

/// The paths of the streamed segments that a build reads, in order.
pub open spec fn paths_to_read(segs: Seq<StreamElement>, all: bool, snapshot: u32) -> Seq<Seq<char>>
    decreases segs.len(),
{
    if segs.len() == 0 {
        Seq::empty()
    } else {
        let before = paths_to_read(segs.drop_last(), all, snapshot);
        match segs.last() {
            StreamElement::Streamed(p) => if needs_read(all, snapshot, stream_count(segs.drop_last())) {
                before.push(p@)
            } else {
                before
            },
            StreamElement::Static(_) => before,
        }
    }
}

/// `i` is the first failed read among `fresh`.
pub open spec fn is_first_failure(fresh: Seq<Result<String, String>>, i: int) -> bool {
    &&& 0 <= i < fresh.len()
    &&& fresh[i] is Err
    &&& forall|j: int| 0 <= j < i ==> fresh[j] is Ok
}

pub open spec fn any_failure(fresh: Seq<Result<String, String>>) -> bool {
    exists|i: int| 0 <= i < fresh.len() && fresh[i] is Err
}

pub proof fn lemma_paths_len(segs: Seq<StreamElement>, all: bool, snapshot: u32)
    ensures
        paths_to_read(segs, all, snapshot).len() == reads_before(all, snapshot, stream_count(segs)),
    decreases segs.len(),
{
    if segs.len() > 0 {
        lemma_paths_len(segs.drop_last(), all, snapshot);
    }
}

/// A prefix of the segments holds no more streamed segments than the whole.
pub proof fn lemma_stream_count_prefix(segs: Seq<StreamElement>, j: int)
    requires
        0 <= j <= segs.len(),
    ensures
        stream_count(segs.take(j)) <= stream_count(segs),
    decreases segs.len() - j,
{
    if j < segs.len() {
        lemma_stream_count_prefix(segs, j + 1);
        assert(segs.take(j + 1).drop_last() == segs.take(j));
    } else {
        assert(segs.take(j) == segs);
    }
}

pub proof fn lemma_reads_before_grows(all: bool, snapshot: u32, k1: nat, k2: nat)
    requires
        k1 <= k2,
    ensures
        reads_before(all, snapshot, k1) <= reads_before(all, snapshot, k2),
    decreases k2,
{
    if k1 < k2 {
        lemma_reads_before_grows(all, snapshot, k1, (k2 - 1) as nat);
    }
}

/// The sum of the line counts in a diagnostic map.
pub open spec fn map_lines(sections: Seq<(usize, String)>) -> nat
    decreases sections.len(),
{
    if sections.len() == 0 {
        0
    } else {
        map_lines(sections.drop_last()) + sections.last().0 as nat
    }
}

/// A diagnostic map that gives each segment its line count covers the
/// assembled source: its line counts add up to the source's.
pub proof fn lemma_map_covers_source(
    segs: Seq<StreamElement>,
    texts: Seq<Seq<char>>,
    sections: Seq<(usize, String)>,
)
    requires
        sections.len() == segs.len(),
        forall|j: int|
            0 <= j < segs.len() ==> (#[trigger] sections[j]).0 == count_newlines(
                segment_text(segs, texts, j),
            ),
    ensures
        map_lines(sections) == count_newlines(source_of(segs, texts, segs.len() as int)),
    decreases segs.len(),
{
    lemma_map_covers_prefix(segs, texts, sections, segs.len() as int);
    assert(sections.take(segs.len() as int) == sections);
}

proof fn lemma_map_covers_prefix(
    segs: Seq<StreamElement>,
    texts: Seq<Seq<char>>,
    sections: Seq<(usize, String)>,
    j: int,
)
    requires
        0 <= j <= segs.len(),
        sections.len() == segs.len(),
        forall|i: int|
            0 <= i < segs.len() ==> (#[trigger] sections[i]).0 == count_newlines(
                segment_text(segs, texts, i),
            ),
    ensures
        map_lines(sections.take(j)) == count_newlines(source_of(segs, texts, j)),
    decreases j,
{
    if j > 0 {
        lemma_map_covers_prefix(segs, texts, sections, j - 1);
        assert(sections.take(j).drop_last() == sections.take(j - 1));
        lemma_count_newlines_concat(source_of(segs, texts, j - 1), segment_text(segs, texts, j - 1));
    }
}

proof fn lemma_full_reads_before(snapshot: u32, k: nat)
    ensures
        reads_before(true, snapshot, k) == k,
    decreases k,
{
    if k > 0 {
        lemma_full_reads_before(snapshot, (k - 1) as nat);
    }
}

/// A full build reads every streamed segment, whatever the dirty bits: it
/// takes one text per streamed segment, in order, and the cache afterwards
/// holds exactly those texts.
pub proof fn lemma_full_build_reads_all(
    segs: Seq<StreamElement>,
    cache: Seq<Seq<char>>,
    snapshot: u32,
    fresh: Seq<Result<String, String>>,
)
    requires
        cache.len() == stream_count(segs),
    ensures
        reads_before(true, snapshot, stream_count(segs)) == stream_count(segs),
        paths_to_read(segs, true, snapshot) == paths_to_read(segs, true, 0),
        forall|k: nat| k < stream_count(segs) ==> needs_read(true, snapshot, k),
        refreshed(cache, true, snapshot, fresh) == Seq::new(
            stream_count(segs),
            |k: int| read_text(fresh[k]),
        ),
    decreases segs.len(),
{
    lemma_full_reads_before(snapshot, stream_count(segs));
    lemma_full_paths(segs, snapshot);
    assert forall|k: int| 0 <= k < stream_count(segs) implies refreshed(
        cache,
        true,
        snapshot,
        fresh,
    )[k] == read_text(fresh[k]) by {
        lemma_full_reads_before(snapshot, k as nat);
    }
    assert(refreshed(cache, true, snapshot, fresh) =~= Seq::new(
        stream_count(segs),
        |k: int| read_text(fresh[k]),
    ));
}

proof fn lemma_full_paths(segs: Seq<StreamElement>, snapshot: u32)
    ensures
        paths_to_read(segs, true, snapshot) == paths_to_read(segs, true, 0),
    decreases segs.len(),
{
    if segs.len() > 0 {
        lemma_full_paths(segs.drop_last(), snapshot);
    }
}

/// A build that is not forced, given the dirty bits `at_snapshot` when its
/// snapshot was taken and `at_build` when it finishes (marks made meanwhile
/// included), leaves every segment of the snapshot unmarked and every other
/// segment as `at_build` has it: no mark made after the snapshot is lost.
pub proof fn lemma_build_keeps_later_marks(at_snapshot: u32, at_build: u32, n: nat)
    requires
        n <= MAX_STREAMS,
        forall|j: u32| n <= j < 32 ==> !has_bit(at_snapshot, j),
    ensures
        forall|j: u32| j < 32 && has_bit(at_snapshot, j) ==> !has_bit(
            #[trigger] consumed(at_build, at_snapshot, n as u32),
            j,
        ),
        forall|j: u32|
            j < 32 && !has_bit(at_snapshot, j) ==> has_bit(
                #[trigger] consumed(at_build, at_snapshot, n as u32),
                j,
            ) == has_bit(at_build, j),
{
    assert forall|j: u32| j < 32 implies has_bit(consumed(at_build, at_snapshot, n as u32), j) == (
    has_bit(at_build, j) && !(has_bit(at_snapshot, j) && j < n)) by {
        lemma_consumed_bit(at_build, at_snapshot, n as u32, j);
    }
}

/// What the contracts say of a segment store.
pub struct StreamerView {
    pub segments: Seq<StreamElement>,
    pub cache: Seq<Seq<char>>,
    pub dirty: u32,
}

/// The segment store: the segments in source order, the last text read for
/// each streamed one, and which streamed ones changed since.
pub struct ShaderStreamer {
    segments: Vec<StreamElement>,
    stream_cache: Vec<String>,
    dirty: DirtySet,
}

impl View for ShaderStreamer {
    type V = StreamerView;

    closed spec fn view(&self) -> StreamerView {
        StreamerView {
            segments: self.segments@,
            cache: self.stream_cache@.map_values(|s: String| s@),
            dirty: self.dirty@,
        }
    }
}

impl ShaderStreamer {
    /// The cache holds one text per streamed segment, and bit 31 of the dirty
    /// set stays clear.
    pub closed spec fn wf(&self) -> bool {
        &&& self.stream_cache@.len() == stream_count(self.segments@)
        &&& self.dirty.wf()
        &&& forall|j: u32|
            stream_count(self.segments@) <= j < 32 ==> !has_bit(#[trigger] self.dirty@, j)
    }

    /// A store that holds the uniform header alone, with nothing marked.
    pub fn new() -> (r: Self)
        ensures
            r.wf(),
            r@.segments.len() == 1,
            r@.segments[0] matches StreamElement::Static(t) && t@ == RENDER_FRAG_HEADER@,
            r@.cache.len() == 0,
            r@.dirty == 0,
    {
        let mut segments: Vec<StreamElement> = Vec::new();
        segments.push(StreamElement::Static(String::from_str(RENDER_FRAG_HEADER)));
        let r = ShaderStreamer { segments, stream_cache: Vec::new(), dirty: DirtySet::new() };
        assert(r.segments@.drop_last().len() == 0);
        assert(stream_count(r.segments@.drop_last()) == 0);
        assert(stream_count(r.segments@) == 0);
        assert forall|j: u32| 0 <= j < 32 implies !has_bit(0u32, j) by {
            assert(!has_bit(0u32, j)) by (bit_vector);
        }
        r
    }

    /// The header followed by a fixed body that draws a pulsing disc.
    pub fn test() -> (r: Self)
        ensures
            r.wf(),
            r@.segments.len() == 2,
            r@.segments[0] matches StreamElement::Static(t) && t@ == RENDER_FRAG_HEADER@,
            r@.segments[1] matches StreamElement::Static(t) && t@ == RENDER_FRAG_STD_BODY@,
            r@.cache.len() == 0,
            r@.dirty == 0,
    {
        Self::new().with_str(RENDER_FRAG_STD_BODY)
    }

    /// Appends a fixed segment.
    pub fn with_str(self, string: &str) -> (r: Self)
        requires
            self.wf(),
        ensures
            r.wf(),
            r@.segments.len() == self@.segments.len() + 1,
            r@.segments.take(self@.segments.len() as int) == self@.segments,
            r@.segments.last() matches StreamElement::Static(t) && t@ == string@,
            r@.cache == self@.cache,
            r@.dirty == self@.dirty,
    {
        let mut r = self;
        let ghost before = r.segments@;
        r.segments.push(StreamElement::Static(String::from_str(string)));
        assert(r.segments@.drop_last() == before);
        assert(r.segments@.take(before.len() as int) == before);
        r
    }

    /// Appends a segment read from the file at `file`; its cached text starts
    /// empty.
    pub fn with_file(self, file: &str) -> (r: Self)
        requires
            self.wf(),
        ensures
            r.wf(),
            r@.segments.len() == self@.segments.len() + 1,
            r@.segments.take(self@.segments.len() as int) == self@.segments,
            r@.segments.last() matches StreamElement::Streamed(p) && p@ == file@,
            r@.cache == self@.cache.push(Seq::empty()),
            r@.dirty == self@.dirty,
    {
        let mut r = self;
        let ghost before = r.segments@;
        r.segments.push(StreamElement::Streamed(String::from_str(file)));
        r.stream_cache.push(String::new());
        assert(r.segments@.drop_last() == before);
        assert(r.segments@.take(before.len() as int) == before);
        assert(r@.cache == self@.cache.push(Seq::empty()));
        r
    }

    /// The number of streamed segments.
    pub fn stream_count(&self) -> (r: usize)
        requires
            self.wf(),
        ensures
            r == stream_count(self@.segments),
    {
        self.stream_cache.len()
    }

    /// The paths of the streamed segments, in order: segment `k`'s changes are
    /// reported as `mark_changed(k)`.
    pub fn stream_paths(&self) -> (r: Vec<String>)
        requires
            self.wf(),
        ensures
            r@.map_values(|p: String| p@) == paths_to_read(self@.segments, true, 0),
    {
        self.files_to_read(true, 0)
    }

    /// Records that the file of streamed segment `k` changed. An index that
    /// names no streamed segment, or one beyond what the dirty set tracks, is
    /// ignored.
    pub fn mark_changed(&mut self, k: usize)
        requires
            old(self).wf(),
        ensures
            final(self).wf(),
            final(self)@.segments == old(self)@.segments,
            final(self)@.cache == old(self)@.cache,
            forall|j: u32|
                j < 32 ==> has_bit(final(self)@.dirty, j) == (has_bit(old(self)@.dirty, j) || (j
                    == k && k < stream_count(old(self)@.segments) && k < MAX_STREAMS)),
            k < stream_count(old(self)@.segments) && k < MAX_STREAMS ==> final(self)@.dirty == old(
                self,
            )@.dirty | (1u32 << k as u32),
            k >= stream_count(old(self)@.segments) || k >= MAX_STREAMS ==> final(self)@.dirty == old(
                self,
            )@.dirty,
    {
        if k < self.stream_cache.len() {
            self.dirty.mark(k);
        }
    }

    /// Whether some streamed segment changed since it was last read.
    pub fn is_dirty(&self) -> (r: bool)
        ensures
            r == (self@.dirty != 0),
    {
        self.dirty.is_dirty()
    }

    /// The changed segments as they stand now, one bit each; a build reads
    /// the segments of the snapshot it is given.
    pub fn snapshot(&self) -> (r: u32)
        ensures
            r == self@.dirty,
    {
        self.dirty.snapshot()
    }

    /// The paths of the files that a build with `all` and `snapshot` reads,
    /// in the order in which it takes their contents.
    pub fn files_to_read(&self, all: bool, snapshot: u32) -> (r: Vec<String>)
        requires
            self.wf(),
        ensures
            r@.map_values(|p: String| p@) == paths_to_read(self@.segments, all, snapshot),
            r@.len() == reads_before(all, snapshot, stream_count(self@.segments)),
    {
        proof {
            lemma_paths_len(self@.segments, all, snapshot);
        }
        let mut r: Vec<String> = Vec::new();
        let mut k: usize = 0;
        let mut j: usize = 0;
        while j < self.segments.len()
            invariant
                self.wf(),
                j <= self.segments.len(),
                k == stream_count(self.segments@.take(j as int)),
                r@.map_values(|p: String| p@) == paths_to_read(
                    self.segments@.take(j as int),
                    all,
                    snapshot,
                ),
            decreases self.segments.len() - j,
        {
            proof {
                assert(self.segments@.take(j + 1).drop_last() == self.segments@.take(j as int));
                lemma_stream_count_prefix(self.segments@, j as int + 1);
            }
            match &self.segments[j] {
                StreamElement::Streamed(p) => {
                    assert(stream_count(self.segments@.take(j + 1)) == k + 1);
                    assert(self.stream_cache@.len() == stream_count(self.segments@));
                    assert(k + 1 <= self.stream_cache.len());
                    if all || (k < 32 && (snapshot >> (k as u32)) & 1u32 == 1u32) {
                        let ghost before = r@;
                        r.push(p.clone());
                        assert(r@.map_values(|p: String| p@) == before.map_values(
                            |p: String| p@,
                        ).push(p@));
                    }
                    k = k + 1;
                },
                StreamElement::Static(_) => {},
            }
            j = j + 1;
        }
        assert(self.segments@.take(j as int) == self.segments@);
        r
    }

    /// Assembles the fragment source from the segments in order. `fresh`
    /// holds the result of reading each file of `files_to_read(all, snapshot)`,
    /// in that order. Each fixed segment gives its text; each streamed segment
    /// that the build reads gives its fresh text, which replaces its cached
    /// one; every other streamed segment gives its cached text. The diagnostic
    /// map lists every segment with its line count and name. Unless `all`, the
    /// bits of `snapshot` that the build read are cleared, and no other. On
    /// any error the store stays as it was.
    pub fn build(&mut self, all: bool, snapshot: u32, fresh: &Vec<Result<String, String>>) -> (r:
        Result<Assembly, BuildError>)
        requires
            old(self).wf(),
        ensures
            final(self).wf(),
            final(self)@.segments == old(self)@.segments,
            r is Err ==> final(self)@ == old(self)@,
            stream_count(old(self)@.segments) > MAX_STREAMS ==> r == Err::<Assembly, BuildError>(
                BuildError::TooManyStreams,
            ),
            stream_count(old(self)@.segments) <= MAX_STREAMS && fresh@.len() != reads_before(
                all,
                snapshot,
                stream_count(old(self)@.segments),
            ) ==> r == Err::<Assembly, BuildError>(BuildError::ReadCountMismatch),
            stream_count(old(self)@.segments) <= MAX_STREAMS && fresh@.len() == reads_before(
                all,
                snapshot,
                stream_count(old(self)@.segments),
            ) && any_failure(fresh@) ==> exists|i: int|
                is_first_failure(fresh@, i) && r == Err::<Assembly, BuildError>(
                    BuildError::ReadFailed(fresh@[i]->Err_0),
                ),
            r is Ok <==> (stream_count(old(self)@.segments) <= MAX_STREAMS && fresh@.len()
                == reads_before(all, snapshot, stream_count(old(self)@.segments)) && !any_failure(
                fresh@,
            )),
            r matches Ok(a) ==> {
                let segs = old(self)@.segments;
                let texts = refreshed(old(self)@.cache, all, snapshot, fresh@);
                &&& final(self)@.cache == texts
                &&& a.source@ == source_of(segs, texts, segs.len() as int)
                &&& a.sections@.len() == segs.len()
                &&& map_lines(a.sections@) == count_newlines(a.source@)
                &&& forall|j: int|
                    0 <= j < segs.len() ==> (#[trigger] a.sections@[j]).0 == count_newlines(
                        segment_text(segs, texts, j),
                    ) && a.sections@[j].1@ == segment_name(segs, j)
                &&& final(self)@.dirty == if all {
                    old(self)@.dirty
                } else {
                    consumed(old(self)@.dirty, snapshot, stream_count(segs) as u32)
                }
            },
    {
        let n = self.stream_cache.len();
        if n > MAX_STREAMS {
            return Err(BuildError::TooManyStreams);
        }
        let mut needed: usize = 0;
        let mut k: usize = 0;
        while k < n
            invariant
                k <= n <= MAX_STREAMS,
                needed == reads_before(all, snapshot, k as nat),
                needed <= k,
            decreases n - k,
        {
            if all || (k < 32 && (snapshot >> (k as u32)) & 1u32 == 1u32) {
                needed = needed + 1;
            }
            k = k + 1;
        }
        if fresh.len() != needed {
            return Err(BuildError::ReadCountMismatch);
        }
        let mut m: usize = 0;
        while m < fresh.len()
            invariant
                old(self).wf(),
                *self == *old(self),
                n == self.stream_cache@.len() == stream_count(self.segments@),
                n <= MAX_STREAMS,
                fresh@.len() == reads_before(all, snapshot, n as nat),
                m <= fresh.len(),
                forall|i: int| 0 <= i < m ==> fresh@[i] is Ok,
            decreases fresh.len() - m,
        {
            match &fresh[m] {
                Err(e) => {
                    assert(is_first_failure(fresh@, m as int));
                    return Err(BuildError::ReadFailed(e.clone()));
                },
                Ok(_) => {},
            }
            m = m + 1;
        }
        let ghost segs = self.segments@;
        let ghost texts = refreshed(self@.cache, all, snapshot, fresh@);
        let mut source = String::new();
        let mut sections: Vec<(usize, String)> = Vec::new();
        let mut cache: Vec<String> = Vec::new();
        let mut k: usize = 0;
        let mut m: usize = 0;
        let mut j: usize = 0;
        while j < self.segments.len()
            invariant
                old(self).wf(),
                self.segments@ == segs,
                self.stream_cache@ == old(self).stream_cache@,
                segs == old(self)@.segments,
                n == self.stream_cache@.len() == stream_count(segs),
                n <= MAX_STREAMS,
                texts == refreshed(old(self)@.cache, all, snapshot, fresh@),
                fresh@.len() == reads_before(all, snapshot, n as nat),
                forall|i: int| 0 <= i < fresh@.len() ==> fresh@[i] is Ok,
                j <= segs.len(),
                k == stream_count(segs.take(j as int)),
                m == reads_before(all, snapshot, k as nat),
                cache@.map_values(|t: String| t@) == texts.take(k as int),
                source@ == source_of(segs, texts, j as int),
                sections@.len() == j,
                forall|i: int|
                    0 <= i < j ==> (#[trigger] sections@[i]).0 == count_newlines(
                        segment_text(segs, texts, i),
                    ) && sections@[i].1@ == segment_name(segs, i),
            decreases segs.len() - j,
        {
            proof {
                assert(segs.take(j + 1).drop_last() == segs.take(j as int));
                lemma_stream_count_prefix(segs, j as int + 1);
            }
            match &self.segments[j] {
                StreamElement::Static(t) => {
                    source.append(t.as_str());
                    let lines = newline_count(t.as_str());
                    sections.push((lines, String::from_str(INTERNAL_NAME)));
                },
                StreamElement::Streamed(p) => {
                    assert(stream_count(segs.take(j + 1)) == k + 1);
                    let text: String = if all || (k < 32 && (snapshot >> (k as u32)) & 1u32
                        == 1u32) {
                        proof {
                            lemma_reads_before_grows(all, snapshot, k as nat + 1, n as nat);
                            assert(reads_before(all, snapshot, k as nat + 1) == m + 1);
                            assert(m + 1 <= fresh.len());
                        }
                        let f = match &fresh[m] {
                            Ok(t) => t.clone(),
                            Err(e) => e.clone(),
                        };
                        m = m + 1;
                        f
                    } else {
                        self.stream_cache[k].clone()
                    };
                    assert(text@ == texts[k as int]);
                    source.append(text.as_str());
                    let lines = newline_count(text.as_str());
                    sections.push((lines, p.clone()));
                    let ghost before = cache@;
                    cache.push(text);
                    assert(cache@.map_values(|t: String| t@) == before.map_values(|t: String| t@).push(
                        texts[k as int],
                    ));
                    assert(texts.take(k + 1) == texts.take(k as int).push(texts[k as int]));
                    k = k + 1;
                },
            }
            assert(source@ == source_of(segs, texts, j + 1));
            j = j + 1;
        }
        assert(segs.take(j as int) == segs);
        assert(texts.take(k as int) == texts);
        proof {
            lemma_map_covers_source(segs, texts, sections@);
        }
        self.stream_cache = cache;
        assert(self@.cache == texts);
        if !all {
            self.dirty.consume(snapshot, n);
            proof {
                assert forall|j: u32| n <= j < 32 implies !has_bit(#[trigger] self.dirty@, j) by {
                    lemma_consumed_bit(old(self).dirty@, snapshot, n as u32, j);
                }
            }
        }
        Ok(Assembly { source, sections })
    }
}

impl Default for ShaderStreamer {
    fn default() -> (r: Self)
        ensures
            r.wf(),
            r@.segments.len() == 1,
            r@.segments[0] matches StreamElement::Static(t) && t@ == RENDER_FRAG_HEADER@,
            r@.cache.len() == 0,
            r@.dirty == 0,
    {
        Self::new()
    }
}

} // verus!
