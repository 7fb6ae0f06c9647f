//! The POSIX backend: which standard stream is a terminal, and what size that
//! terminal reports.
//!
//! A stream is probed in two steps. It is first asked whether it is a terminal
//! at all; only a terminal is then asked for its window size. What came back
//! is recorded as a [`Probe`], and [`size_of_probe`] decides whether a probe
//! amounts to a usable size.

use vstd::prelude::*;
use rustix::fd::BorrowedFd;
use rustix::io::Errno;
use crate::size::{FullSize, Height, PixelSize, Size, Width};

verus! {

/// `rustix::fd::BorrowedFd`: a borrowed file descriptor. It is opaque here and
/// only carried through to the operating system.
#[verifier::external_type_specification]
#[verifier::external_body]
pub struct ExBorrowedFd<'fd>(BorrowedFd<'fd>);

/// `rustix::io::Errno`: the error code of a failed system call. It is opaque
/// here; the backend only tells failure from success.
#[verifier::external_type_specification]
#[verifier::external_body]
pub struct ExErrno(Errno);

/// The four fields of a window-size record, as the terminal reported them.
#[derive(Debug, Clone, Copy, PartialEq, Eq, Structural)]
pub struct RawSize {
    /// Number of rows.
    pub rows: u16,
    /// Number of columns.
    pub cols: u16,
    /// Horizontal extent in pixels.
    pub x_pixels: u16,
    /// Vertical extent in pixels.
    pub y_pixels: u16,
}

/// Asks the operating system whether `fd` refers to a terminal, through
/// `rustix::termios::isatty`. The answer depends on what the descriptor is
/// attached to when the call is made, so nothing is claimed of it.
#[verifier::external_body]
fn is_tty(fd: BorrowedFd<'_>) -> bool {
    rustix::termios::isatty(fd)
}

/// Asks the terminal behind `fd` for its window size, through
/// `rustix::termios::tcgetwinsize`, and copies the four fields of the record
/// it filled in. Both the outcome and the fields depend on the terminal at the
/// time of the call, so nothing is claimed of them.
#[verifier::external_body]
fn window_size(fd: BorrowedFd<'_>) -> Result<RawSize, Errno> {
    match rustix::termios::tcgetwinsize(fd) {
        Ok(ws) => Ok(RawSize {
            rows: ws.ws_row,
            cols: ws.ws_col,
            x_pixels: ws.ws_xpixel,
            y_pixels: ws.ws_ypixel,
        }),
        Err(errno) => Err(errno),
    }
}

/// The standard output of the process, from `rustix::stdio::stdout`. The
/// descriptor is opaque here, so nothing is claimed of it.
pub assume_specification[ rustix::stdio::stdout ]() -> (fd: BorrowedFd<'static>);

/// The standard error of the process, from `rustix::stdio::stderr`. The
/// descriptor is opaque here, so nothing is claimed of it.
pub assume_specification[ rustix::stdio::stderr ]() -> (fd: BorrowedFd<'static>);

/// The standard input of the process, from `rustix::stdio::stdin`. The
/// descriptor is opaque here, so nothing is claimed of it.
pub assume_specification[ rustix::stdio::stdin ]() -> (fd: BorrowedFd<'static>);

/// What probing one stream found.
#[derive(Debug, Clone, Copy, PartialEq, Eq, Structural)]
pub enum Probe {
    /// The stream is a file, a pipe or a null device: no terminal, and so
    /// never asked for a size.
    NotATerminal,
    /// The stream is a terminal, but the window-size query failed.
    QueryFailed,
    /// The stream is a terminal and reported this record.
    Reported(RawSize),
}

/// The pixel extent that a record carries: present only when both pixel
/// fields are nonzero.
pub open spec fn pixels_of(raw: RawSize) -> Option<PixelSize> {
    if raw.x_pixels != 0 && raw.y_pixels != 0 {
        Some(PixelSize { x: raw.x_pixels, y: raw.y_pixels })
    } else {
        None
    }
}

/// The size that a record amounts to: none when it reports zero rows or zero
/// columns, else its columns and rows with the pixel extent it carries.
pub open spec fn full_size_of_raw(raw: RawSize) -> Option<FullSize> {
    if raw.rows > 0 && raw.cols > 0 {
        Some((Width(raw.cols), Height(raw.rows), pixels_of(raw)))
    } else {
        None
    }
}

/// The size that a probe amounts to: only a terminal that answered the query
/// has one.
pub open spec fn full_size_of_probe(probe: Probe) -> Option<FullSize> {
    match probe {
        Probe::NotATerminal => None,
        Probe::QueryFailed => None,
        Probe::Reported(raw) => full_size_of_raw(raw),
    }
}

/// A size with its pixel extent left out.
pub open spec fn without_pixels(full: Option<FullSize>) -> Option<Size> {
    match full {
        Some((width, height, _)) => Some((width, height)),
        None => None,
    }
}

/// What holds of every answer this backend gives: a size has at least one
/// column and one row, and a pixel extent is nonzero along both axes.
pub open spec fn is_reportable(full: Option<FullSize>) -> bool {
    match full {
        Some((width, height, pixels)) => {
            &&& width.0 > 0
            &&& height.0 > 0
            &&& match pixels {
                Some(extent) => extent.x != 0 && extent.y != 0,
                None => true,
            }
        },
        None => true,
    }
}

/// The pixel extent of a window-size record, if it carries one.
pub fn pixel_size(raw: RawSize) -> (pixels: Option<PixelSize>)
    ensures
        pixels == pixels_of(raw),
{
    if raw.x_pixels != 0 && raw.y_pixels != 0 {
        Some(PixelSize { x: raw.x_pixels, y: raw.y_pixels })
    } else {
        None
    }
}

/// Turns what a probe found into a size, or into nothing where the stream is
/// no terminal, the query failed, or the terminal reported a zero dimension.
pub fn size_of_probe(probe: Probe) -> (full: Option<FullSize>)
    ensures
        full == full_size_of_probe(probe),
        is_reportable(full),
{
    match probe {
        Probe::NotATerminal => None,
        Probe::QueryFailed => None,
        Probe::Reported(raw) => {
            let pixels = pixel_size(raw);
            if raw.rows > 0 && raw.cols > 0 {
                Some((Width(raw.cols), Height(raw.rows), pixels))
            } else {
                None
            }
        },
    }
}

/// Leaves the pixel extent out of a size.
pub fn drop_pixels(full: Option<FullSize>) -> (size: Option<Size>)
    ensures
        size == without_pixels(full),
{
    match full {
        Some((width, height, _)) => Some((width, height)),
        None => None,
    }
}

/// Probes `fd`: a descriptor that is no terminal is not asked for its size.
fn probe_fd(fd: BorrowedFd<'_>) -> (probe: Probe) {
    if !is_tty(fd) {
        return Probe::NotATerminal;
    }
    let answer = window_size(fd);
    probe_from_answer(answer)
}

/// Returns the full size of the terminal under the given file descriptor, if
/// available.
///
/// The answer is `None` where the descriptor is no terminal, where the query
/// fails, and where the terminal reports zero rows or zero columns. The pixel
/// extent is `None` unless the terminal reports it nonzero along both axes.
/// Which of these happens is for the operating system to say; whatever it
/// says, the answer is reportable. What each outcome of the query amounts to
/// is stated by [`probe_from_answer`], and what each probe amounts to by
/// [`size_of_probe`].
pub fn terminal_size_full_from_fd(fd: BorrowedFd<'_>) -> (full: Option<FullSize>)
    ensures
        is_reportable(full),
{
    size_of_probe(probe_fd(fd))
}

/// Returns the size of the terminal under the given file descriptor, if
/// available: what [`terminal_size_full_from_fd`] answers, without the pixel
/// extent.
pub fn terminal_size_of(fd: BorrowedFd<'_>) -> (size: Option<Size>)
    ensures
        size matches Some((width, height)) ==> width.0 > 0 && height.0 > 0,
{
    drop_pixels(terminal_size_full_from_fd(fd))
}

/// What probing the standard streams found, in the order in which they are
/// tried: standard output, then standard error, then standard input. A
/// stream that was not probed is `None`.
#[derive(Debug, Clone, Copy, PartialEq, Eq, Structural)]
pub struct StreamProbes {
    /// Standard output is always probed.
    pub stdout: Probe,
    /// Standard error, where it was probed.
    pub stderr: Option<Probe>,
    /// Standard input, where it was probed.
    pub stdin: Option<Probe>,
}

/// The size that a stream amounts to: none where it was not probed.
pub open spec fn full_size_if_probed(probe: Option<Probe>) -> Option<FullSize> {
    match probe {
        Some(found) => full_size_of_probe(found),
        None => None,
    }
}

impl StreamProbes {
    /// The fallback discipline: a stream is probed exactly when every stream
    /// before it was probed and gave no size.
    pub open spec fn in_order(self) -> bool {
        &&& self.stderr is Some <==> full_size_of_probe(self.stdout) is None
        &&& self.stdin is Some <==> self.stderr is Some && full_size_if_probed(self.stderr) is None
    }

    /// The size of the first stream, in the order of trial, that has one.
    pub open spec fn first_size(self) -> Option<FullSize> {
        if full_size_of_probe(self.stdout) is Some {
            full_size_of_probe(self.stdout)
        } else if full_size_if_probed(self.stderr) is Some {
            full_size_if_probed(self.stderr)
        } else {
            full_size_if_probed(self.stdin)
        }
    }
}

/// The size of a stream that may not have been probed.
fn size_if_probed(probe: Option<Probe>) -> (full: Option<FullSize>)
    ensures
        full == full_size_if_probed(probe),
        is_reportable(full),
{
    match probe {
        Some(found) => size_of_probe(found),
        None => None,
    }
}

/// Picks the size of the first stream, in the order standard output, standard
/// error, standard input, that is a terminal with a usable size.
pub fn size_of_probes(probes: StreamProbes) -> (full: Option<FullSize>)
    ensures
        full == probes.first_size(),
        is_reportable(full),
{
    let from_stdout = size_of_probe(probes.stdout);
    if from_stdout.is_some() {
        return from_stdout;
    }
    let from_stderr = size_if_probed(probes.stderr);
    if from_stderr.is_some() {
        return from_stderr;
    }
    size_if_probed(probes.stdin)
}

/// Probes the standard streams of the process, stopping at the first one
/// that is a terminal with a usable size.
pub fn probe_streams() -> (probes: StreamProbes)
    ensures
        probes.in_order(),
{
    let stdout = probe_fd(rustix::stdio::stdout());
    if size_of_probe(stdout).is_some() {
        return StreamProbes { stdout, stderr: None, stdin: None };
    }
    let stderr = probe_fd(rustix::stdio::stderr());
    if size_of_probe(stderr).is_some() {
        return StreamProbes { stdout, stderr: Some(stderr), stdin: None };
    }
    let stdin = probe_fd(rustix::stdio::stdin());
    StreamProbes { stdout, stderr: Some(stderr), stdin: Some(stdin) }
}

/// Returns the full size of the terminal.
///
/// This function checks the stdout, stderr, and stdin streams (in that
/// order). The size of the first stream that is a terminal with a usable size
/// is returned. If there is none, `None` is returned.
pub fn terminal_size_full() -> (full: Option<FullSize>)
    ensures
        is_reportable(full),
{
    size_of_probes(probe_streams())
}

/// Returns the size of the terminal.
///
/// This function checks the stdout, stderr, and stdin streams (in that
/// order). The size of the first stream that is a terminal with a usable size
/// is returned. If there is none, `None` is returned.
pub fn terminal_size() -> (size: Option<Size>)
    ensures
        size matches Some((width, height)) ==> width.0 > 0 && height.0 > 0,
{
    drop_pixels(terminal_size_full())
}

/// What a terminal's answer to the window-size query amounts to: the record
/// it filled in, or a failed query whatever the error.
pub open spec fn probe_of_answer(answer: Result<RawSize, Errno>) -> Probe {
    match answer {
        Ok(raw) => Probe::Reported(raw),
        Err(_) => Probe::QueryFailed,
    }
}

/// Records a terminal's answer to the window-size query as a probe. The
/// error code of a failed query is dropped: every failure counts the same.
pub fn probe_from_answer(answer: Result<RawSize, Errno>) -> (probe: Probe)
    ensures
        probe == probe_of_answer(answer),
        probe !is NotATerminal,
{
    match answer {
        Ok(raw) => Probe::Reported(raw),
        Err(_) => Probe::QueryFailed,
    }
}

/// A probe amounts to a size exactly when the stream is a terminal that
/// reported at least one row and one column. A stream that is no terminal, a
/// failed query and a zero dimension all amount to nothing.
pub proof fn lemma_available_iff_positive(probe: Probe)
    ensures
        full_size_of_probe(probe) is Some <==> (probe matches Probe::Reported(raw) && raw.rows > 0
            && raw.cols > 0),
        probe matches Probe::Reported(raw) ==> (raw.rows > 0 && raw.cols > 0
            ==> full_size_of_probe(probe) == Some(
            (Width(raw.cols), Height(raw.rows), pixels_of(raw)),
        )),
{
}

/// No probe surfaces as a width of zero or a height of zero.
pub proof fn lemma_size_is_never_zero(probe: Probe)
    ensures
        full_size_of_probe(probe) matches Some((width, height, _)) ==> width.0 != 0 && height.0
            != 0,
{
}

/// A record carries a pixel extent exactly when both pixel fields are
/// nonzero, and the extent is then the two fields; a single zero field
/// leaves it out.
pub proof fn lemma_pixels_need_both_axes(raw: RawSize)
    ensures
        pixels_of(raw) is Some <==> raw.x_pixels != 0 && raw.y_pixels != 0,
        pixels_of(raw) matches Some(extent) ==> extent.x == raw.x_pixels && extent.y
            == raw.y_pixels,
{
}

/// The reportable answers are exactly those that some probe amounts to.
pub proof fn lemma_reportable_iff_probed(full: Option<FullSize>)
    ensures
        is_reportable(full) <==> exists|probe: Probe| full == #[trigger] full_size_of_probe(probe),
{
    if is_reportable(full) {
        let probe = match full {
            Some((width, height, Some(extent))) => Probe::Reported(
                RawSize { rows: height.0, cols: width.0, x_pixels: extent.x, y_pixels: extent.y },
            ),
            Some((width, height, None)) => Probe::Reported(
                RawSize { rows: height.0, cols: width.0, x_pixels: 0, y_pixels: 0 },
            ),
            None => Probe::NotATerminal,
        };
        assert(full == full_size_of_probe(probe));
    }
}

/// The streams are tried in a fixed order: the size is that of standard
/// output where it has one, else that of standard error where it has one,
/// else that of standard input.
pub proof fn lemma_fallback_order(probes: StreamProbes)
    ensures
        full_size_of_probe(probes.stdout) is Some ==> probes.first_size() == full_size_of_probe(
            probes.stdout,
        ),
        full_size_of_probe(probes.stdout) is None && full_size_if_probed(probes.stderr) is Some
            ==> probes.first_size() == full_size_if_probed(probes.stderr),
        full_size_of_probe(probes.stdout) is None && full_size_if_probed(probes.stderr) is None
            ==> probes.first_size() == full_size_if_probed(probes.stdin),
        is_reportable(probes.first_size()),
{
}

/// Where the streams were probed in order, the answer is nothing only after
/// all three were probed and none of them had a size, and it is otherwise the
/// size of the last stream that was probed.
pub proof fn lemma_in_order_stops_at_first(probes: StreamProbes)
    requires
        probes.in_order(),
    ensures
        probes.first_size() is None <==> probes.stdin is Some && full_size_if_probed(probes.stdin)
            is None,
        probes.stderr is None ==> probes.first_size() == full_size_of_probe(probes.stdout),
        probes.stderr is Some && probes.stdin is None ==> probes.first_size()
            == full_size_if_probed(probes.stderr),
        probes.stdin is Some ==> probes.first_size() == full_size_if_probed(probes.stdin),
{
}

} // verus!
