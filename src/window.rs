//! The window inspector: decisions over what the operating system reports
//! about the foreground window and its title, and a lookup session that asks
//! for each query in turn.
use vstd::prelude::*;
use vstd::slice::slice_subrange;

verus! {

/// An operating-system window handle, as an address; zero is no window.
#[derive(Clone, Copy, Debug, PartialEq, Eq, Structural)]
pub struct WindowHandle {
    pub raw: usize,
}

impl WindowHandle {
    pub open spec fn valid(&self) -> bool {
        self.raw != 0
    }

    /// Whether the handle can refer to a window at all.
    pub fn is_invalid(&self) -> (r: bool)
        ensures
            r == !self.valid(),
    {
        self.raw == 0
    }
}

/// Why a window query failed.
#[derive(Clone, Copy, Debug, PartialEq, Eq, Structural)]
pub enum WindowError {
    /// No window holds the input focus.
    NoForegroundWindow,
    /// The handle is not, or no longer, valid.
    InvalidHandle,
}

/// The foreground window's title could not be had, for whatever reason.
#[derive(Clone, Copy, Debug, PartialEq, Eq, Structural)]
pub struct Unavailable;

/// What the decoding of UTF-16 code units yields, unpaired surrogates
/// replaced by U+FFFD.
pub uninterp spec fn utf16_lossy(units: Seq<u16>) -> Seq<char>;

/// Relies on `String::from_utf16_lossy`: decodes UTF-16, replacing each
/// invalid code unit sequence with U+FFFD; the result depends on the units alone.
#[verifier::external_body]
fn decode_utf16_lossy(units: &[u16]) -> (r: String)
    ensures
        r@ == utf16_lossy(units@),
{
    String::from_utf16_lossy(units)
}

/// Accepts the handle that the system reported as the foreground window.
pub fn get_foreground_window(reported: WindowHandle) -> (r: Result<WindowHandle, WindowError>)
    ensures
        reported.valid() ==> r == Ok::<WindowHandle, WindowError>(reported),
        !reported.valid() ==> r == Err::<WindowHandle, WindowError>(WindowError::NoForegroundWindow),
{
    if reported.is_invalid() {
        return Err(WindowError::NoForegroundWindow);
    }
    Ok(reported)
}

pub open spec fn title_length_of(handle: WindowHandle, reported: i32) -> Result<usize, WindowError> {
    if !handle.valid() || reported < 0 {
        Err(WindowError::InvalidHandle)
    } else {
        Ok(reported as usize)
    }
}

/// Accepts the title length that the system reported for `handle`; a
/// negative length is no length.
pub fn get_window_title_length(handle: WindowHandle, reported: i32) -> (r: Result<usize, WindowError>)
    ensures
        r == title_length_of(handle, reported),
{
    if handle.is_invalid() || reported < 0 {
        return Err(WindowError::InvalidHandle);
    }
    Ok(reported as usize)
}

pub open spec fn title_of_text(buffer: Seq<u16>, copied: i32) -> Option<Seq<char>> {
    if copied <= 0 {
        None
    } else if copied as int <= buffer.len() {
        Some(utf16_lossy(buffer.take(copied as int)))
    } else {
        Some(utf16_lossy(buffer))
    }
}

/// Decodes the title that the system copied into `buffer`, `copied` code
/// units long; a copy of nothing is no title.
pub fn window_title_from_text(buffer: &Vec<u16>, copied: i32) -> (r: Option<String>)
    ensures
        match r {
            Some(t) => title_of_text(buffer@, copied) == Some(t@),
            None => title_of_text(buffer@, copied) is None,
        },
{
    if copied <= 0 {
        return None;
    }
    let n: usize = if (copied as usize) <= buffer.len() {
        copied as usize
    } else {
        buffer.len()
    };
    let units = slice_subrange(buffer.as_slice(), 0, n);
    proof {
        assert(buffer@.take(buffer@.len() as int) =~= buffer@);
    }
    Some(decode_utf16_lossy(units))
}

/// The next query that a title lookup needs answered.
#[derive(Clone, Copy, Debug, PartialEq, Eq, Structural)]
pub enum LookupStep {
    /// Ask the system for the foreground window; report it with `record_foreground_window`.
    QueryForegroundWindow,
    /// Ask for the length of this window's title; report it with `record_title_length`.
    QueryTitleLength(WindowHandle),
    /// Copy this window's title into a zeroed buffer of this many code units;
    /// report it with `record_title_text`.
    QueryTitleText(WindowHandle, usize),
    /// The lookup is over: take its result.
    Finished,
}

/// Where a title lookup stands.
enum Stage {
    Foreground,
    Length(WindowHandle),
    Text(WindowHandle, usize),
    Titled(Result<Option<String>, WindowError>),
}

/// A lookup of a window's title, one system query at a time. Every query
/// that takes a handle re-validates it: a handle may go stale between queries.
pub struct TitleLookup {
    stage: Stage,
}

pub open spec fn title_view(r: Result<Option<String>, WindowError>) -> Result<Option<Seq<char>>, WindowError> {
    match r {
        Ok(Some(t)) => Ok(Some(t@)),
        Ok(None) => Ok(None),
        Err(e) => Err(e),
    }
}

impl TitleLookup {
    /// The query the lookup waits on.
    pub closed spec fn step(&self) -> LookupStep {
        match self.stage {
            Stage::Foreground => LookupStep::QueryForegroundWindow,
            Stage::Length(h) => LookupStep::QueryTitleLength(h),
            Stage::Text(h, n) => LookupStep::QueryTitleText(h, n),
            Stage::Titled(_) => LookupStep::Finished,
        }
    }

    /// The title found, once the lookup is over: `Ok(None)` for a window
    /// without a title.
    pub closed spec fn title(&self) -> Option<Result<Option<Seq<char>>, WindowError>> {
        match self.stage {
            Stage::Titled(r) => Some(title_view(r)),
            _ => None,
        }
    }

    pub open spec fn finished_with(&self, r: Result<Option<Seq<char>>, WindowError>) -> bool {
        self.step() == LookupStep::Finished && self.title() == Some(r)
    }

    pub open spec fn wf(&self) -> bool {
        self.step() == LookupStep::Finished <==> self.title() is Some
    }

    /// Returns the query the lookup waits on.
    pub fn next_step(&self) -> (r: LookupStep)
        ensures
            r == self.step(),
    {
        match self.stage {
            Stage::Foreground => LookupStep::QueryForegroundWindow,
            Stage::Length(h) => LookupStep::QueryTitleLength(h),
            Stage::Text(h, n) => LookupStep::QueryTitleText(h, n),
            Stage::Titled(_) => LookupStep::Finished,
        }
    }

    /// Records the handle the system reported as the foreground window.
    pub fn record_foreground_window(&mut self, reported: WindowHandle)
        requires
            old(self).step() == LookupStep::QueryForegroundWindow,
        ensures
            final(self).wf(),
            reported.valid() ==> final(self).step() == LookupStep::QueryTitleLength(reported),
            !reported.valid() ==> final(self).finished_with(Err(WindowError::NoForegroundWindow)),
    {
        match get_foreground_window(reported) {
            Ok(h) => {
                self.stage = Stage::Length(h);
            },
            Err(e) => {
                self.stage = Stage::Titled(Err(e));
            },
        }
    }

    /// Records the title length the system reported: a zero length is a
    /// window without a title, and no buffer is asked for; otherwise the
    /// buffer asked for has room for the title and a terminator.
    pub fn record_title_length(&mut self, reported: i32)
        requires
            old(self).step() is QueryTitleLength,
        ensures
            final(self).wf(),
            ({
                let h = old(self).step()->QueryTitleLength_0;
                match title_length_of(h, reported) {
                    Err(e) => final(self).finished_with(Err(e)),
                    Ok(n) => if n == 0 {
                        final(self).finished_with(Ok(None))
                    } else {
                        final(self).step() == LookupStep::QueryTitleText(h, (n + 1) as usize)
                    },
                }
            }),
    {
        let h = match self.stage {
            Stage::Length(h) => h,
            _ => {
                return;
            },
        };
        match get_window_title_length(h, reported) {
            Err(e) => {
                self.stage = Stage::Titled(Err(e));
            },
            Ok(n) => {
                if n == 0 {
                    self.stage = Stage::Titled(Ok(None));
                } else {
                    self.stage = Stage::Text(h, n + 1);
                }
            },
        }
    }

    /// Records the title the system copied into `buffer`, `copied` code units
    /// long; a copy of nothing is taken as no title.
    pub fn record_title_text(&mut self, buffer: &Vec<u16>, copied: i32)
        requires
            old(self).step() is QueryTitleText,
        ensures
            final(self).wf(),
            final(self).finished_with(Ok(title_of_text(buffer@, copied))),
    {
        match window_title_from_text(buffer, copied) {
            Some(t) => {
                self.stage = Stage::Titled(Ok(Some(t)));
            },
            None => {
                self.stage = Stage::Titled(Ok(None));
            },
        }
    }

    /// The title found by a finished lookup.
    pub fn into_title(self) -> (r: Result<Option<String>, WindowError>)
        requires
            self.step() == LookupStep::Finished,
        ensures
            self.title() == Some(title_view(r)),
    {
        match self.stage {
            Stage::Titled(r) => r,
            _ => Err(WindowError::InvalidHandle),
        }
    }

    /// The title found by a finished lookup, any failure or a missing title
    /// being `Unavailable`.
    pub fn into_foreground_title(self) -> (r: Result<String, Unavailable>)
        requires
            self.step() == LookupStep::Finished,
        ensures
            match r {
                Ok(t) => self.title() == Some(Ok::<Option<Seq<char>>, WindowError>(Some(t@))),
                Err(_) => !(self.title() matches Some(Ok(Some(_)))),
            },
    {
        match self.into_title() {
            Ok(Some(t)) => Ok(t),
            _ => Err(Unavailable),
        }
    }
}

/// A lookup whose foreground-window query found no window is over, so no
/// title is queried, and it yields no title: the foreground title is
/// `Unavailable`.
pub proof fn lemma_no_foreground_window_unavailable(l: TitleLookup)
    requires
        l.finished_with(Err(WindowError::NoForegroundWindow)),
    ensures
        l.step() == LookupStep::Finished,
        !(l.title() matches Some(Ok(Some(_)))),
{
}

/// Begins looking up the title of `handle`, which the caller obtained from
/// the system within the same operation.
pub fn get_window_title(handle: WindowHandle) -> (l: TitleLookup)
    ensures
        l.wf(),
        handle.valid() ==> l.step() == LookupStep::QueryTitleLength(handle),
        !handle.valid() ==> l.finished_with(Err(WindowError::InvalidHandle)),
{
    if handle.is_invalid() {
        return TitleLookup { stage: Stage::Titled(Err(WindowError::InvalidHandle)) };
    }
    TitleLookup { stage: Stage::Length(handle) }
}

/// Begins looking up the title of the foreground window: the first query is
/// for the foreground window itself.
pub fn get_foreground_window_title() -> (l: TitleLookup)
    ensures
        l.wf(),
        l.step() == LookupStep::QueryForegroundWindow,
{
    TitleLookup { stage: Stage::Foreground }
}

} // verus!
