//! Captured frames and displays, and what a capturer decides: which display
//! is captured and how frames are numbered. The pixels come from elsewhere.
use vstd::prelude::*;
use vstd::string::*;
use crate::error::{fails_with, plain, ErrorKind, GhostHandError, Result};
use crate::text::{concat, decimal, decimal_string};

verus! {

/// Width of a display where it is not known.
pub const DEFAULT_DISPLAY_WIDTH: u32 = 1920;

/// Height of a display where it is not known.
pub const DEFAULT_DISPLAY_HEIGHT: u32 = 1080;

/// What captures the screen.
pub trait ScreenCapturer {
    /// Captures the current frame of the screen.
    fn capture(&mut self) -> Result<Frame>;

    /// The displays that can be captured.
    fn get_displays(&self) -> Result<Vec<Display>>;

    /// Chooses the display to capture.
    fn select_display(&mut self, display_id: u32) -> Result<()>;

    /// The resolution of what is captured.
    fn get_resolution(&self) -> (u32, u32);
}

/// A captured frame
#[derive(Debug)]
pub struct Frame {
    pub width: u32,
    pub height: u32,
    pub data: Vec<u8>,
    pub format: FrameFormat,
    pub timestamp: u64,
}

/// How the bytes of a frame make up its pixels
#[derive(Clone, Copy, Debug, PartialEq, Eq, Structural)]
pub enum FrameFormat {
    RGBA,
    BGRA,
    RGB,
    BGR,
}

/// A display
#[derive(Debug)]
pub struct Display {
    pub id: u32,
    pub name: String,
    pub width: u32,
    pub height: u32,
    pub x: i32,
    pub y: i32,
    pub is_primary: bool,
}

impl Clone for Frame {
    fn clone(&self) -> (copy: Self)
        ensures
            copy.width == self.width,
            copy.height == self.height,
            copy.data@ == self.data@,
            copy.format == self.format,
            copy.timestamp == self.timestamp,
    {
        let mut data: Vec<u8> = Vec::new();
        let mut i: usize = 0;
        while i < self.data.len()
            invariant
                i <= self.data.len(),
                data@ == self.data@.take(i as int),
            decreases self.data.len() - i,
        {
            data.push(self.data[i]);
            assert(data@ =~= self.data@.take(i + 1));
            i += 1;
        }
        assert(self.data@.take(self.data.len() as int) =~= self.data@);
        Frame {
            width: self.width,
            height: self.height,
            data,
            format: self.format,
            timestamp: self.timestamp,
        }
    }
}

/// The picture that the outside capturer took of a monitor.
pub struct CapturedImage {
    pub width: u32,
    pub height: u32,
    /// The pixels, four bytes each: red, green, blue, alpha.
    pub data: Vec<u8>,
}

/// What a capturer of several monitors keeps: how many monitors there are,
/// which one is captured, and how many frames were captured.
#[derive(Debug)]
pub struct MonitorSelection {
    monitor_count: usize,
    current_monitor: Option<usize>,
    frame_count: u64,
}

/// The name of the monitor at the position `index`.
pub open spec fn monitor_name(index: nat) -> Seq<char> {
    "Monitor "@ + decimal(index)
}

/// The message of a display that is not there.
pub open spec fn invalid_display_message(display_id: u32) -> Seq<char> {
    "Invalid display ID: "@ + decimal(display_id as nat)
}

/// The display is the one listed for the monitor at the position `index`:
/// of the default size, at the origin, the first one primary.
pub open spec fn listed_display(display: Display, index: int) -> bool {
    &&& display.id == index
    &&& display.name@ == monitor_name(index as nat)
    &&& display.width == DEFAULT_DISPLAY_WIDTH
    &&& display.height == DEFAULT_DISPLAY_HEIGHT
    &&& display.x == 0
    &&& display.y == 0
    &&& display.is_primary == (index == 0)
}

impl MonitorSelection {
    /// How many monitors there are.
    pub closed spec fn monitors(&self) -> nat {
        self.monitor_count as nat
    }

    /// The position of the monitor that is captured.
    pub closed spec fn selected(&self) -> Option<usize> {
        self.current_monitor
    }

    /// Frames that were captured.
    pub closed spec fn frames(&self) -> u64 {
        self.frame_count
    }

    /// A selection among `monitor_count` monitors, of which there must be
    /// one at least: the first one is captured.
    pub fn new(monitor_count: usize) -> (r: Result<Self>)
        ensures
            if monitor_count == 0 {
                fails_with(r, plain(ErrorKind::ScreenCapture, "No monitors found"@))
            } else {
                r matches Ok(selection) && selection.monitors() == monitor_count
                    && selection.selected() == Some(0usize) && selection.frames() == 0
            },
    {
        if monitor_count == 0 {
            return Err(GhostHandError::ScreenCapture("No monitors found".to_string()));
        }
        Ok(MonitorSelection { monitor_count, current_monitor: Some(0), frame_count: 0 })
    }

    /// The monitor to capture next; an error where none is selected or the
    /// selected one is not there.
    pub fn monitor_to_capture(&self) -> (r: Result<usize>)
        ensures
            match self.selected() {
                None => fails_with(r, plain(ErrorKind::ScreenCapture, "No monitor selected"@)),
                Some(index) => if index < self.monitors() {
                    r == Ok::<usize, GhostHandError>(index)
                } else {
                    fails_with(
                        r,
                        plain(
                            ErrorKind::ScreenCapture,
                            "Invalid monitor index: "@ + decimal(index as nat),
                        ),
                    )
                },
            },
    {
        match self.current_monitor {
            None => Err(GhostHandError::ScreenCapture("No monitor selected".to_string())),
            Some(index) => if index < self.monitor_count {
                Ok(index)
            } else {
                Err(
                    GhostHandError::ScreenCapture(
                        concat("Invalid monitor index: ", decimal_string(index as u64).as_str()),
                    ),
                )
            },
        }
    }

    /// Takes in how the capture of the selected monitor ended: the frame of
    /// the picture, numbered in the order of capture, or the error of a
    /// capture that failed.
    pub fn capture(&mut self, outcome: std::result::Result<CapturedImage, String>) -> (r: Result<
        Frame,
    >)
        ensures
            final(self).monitors() == old(self).monitors(),
            final(self).selected() == old(self).selected(),
            match outcome {
                Ok(image) => {
                    &&& final(self).frames() == if old(self).frames() == u64::MAX {
                        u64::MAX
                    } else {
                        (old(self).frames() + 1) as u64
                    }
                    &&& r matches Ok(frame) && frame.width == image.width && frame.height
                        == image.height && frame.data == image.data && frame.format
                        == FrameFormat::RGBA && frame.timestamp == final(self).frames()
                },
                Err(reason) => final(self).frames() == old(self).frames() && fails_with(
                    r,
                    plain(ErrorKind::ScreenCapture, "Failed to capture screen: "@ + reason@),
                ),
            },
    {
        match outcome {
            Ok(image) => {
                if self.frame_count < u64::MAX {
                    self.frame_count = self.frame_count + 1;
                }
                Ok(
                    Frame {
                        width: image.width,
                        height: image.height,
                        data: image.data,
                        format: FrameFormat::RGBA,
                        timestamp: self.frame_count,
                    },
                )
            },
            Err(reason) => Err(
                GhostHandError::ScreenCapture(
                    concat("Failed to capture screen: ", reason.as_str()),
                ),
            ),
        }
    }

    /// The displays, one for each monitor.
    pub fn get_displays(&self) -> (displays: Vec<Display>)
        ensures
            displays@.len() == if self.monitors() <= u32::MAX {
                self.monitors()
            } else {
                u32::MAX as nat + 1
            },
            forall|i: int| 0 <= i < displays@.len() ==> listed_display(#[trigger] displays@[i], i),
    {
        let mut displays: Vec<Display> = Vec::new();
        let mut index: usize = 0;
        while index < self.monitor_count && index <= u32::MAX as usize
            invariant
                index <= self.monitor_count,
                index <= u32::MAX + 1,
                displays@.len() == index,
                forall|i: int| 0 <= i < index ==> listed_display(#[trigger] displays@[i], i),
            decreases self.monitor_count - index,
        {
            displays.push(
                Display {
                    id: index as u32,
                    name: concat("Monitor ", decimal_string(index as u64).as_str()),
                    width: DEFAULT_DISPLAY_WIDTH,
                    height: DEFAULT_DISPLAY_HEIGHT,
                    x: 0,
                    y: 0,
                    is_primary: index == 0,
                },
            );
            index += 1;
        }
        displays
    }

    /// Chooses the display to capture; a display that is not there is
    /// refused, and the choice stays as it was.
    pub fn select_display(&mut self, display_id: u32) -> (r: Result<()>)
        ensures
            final(self).monitors() == old(self).monitors(),
            final(self).frames() == old(self).frames(),
            if display_id < old(self).monitors() {
                r is Ok && final(self).selected() == Some(display_id as usize)
            } else {
                final(self).selected() == old(self).selected() && fails_with(
                    r,
                    plain(ErrorKind::ScreenCapture, invalid_display_message(display_id)),
                )
            },
    {
        let index = display_id as usize;
        if index >= self.monitor_count {
            return Err(
                GhostHandError::ScreenCapture(
                    concat("Invalid display ID: ", decimal_string(display_id as u64).as_str()),
                ),
            );
        }
        self.current_monitor = Some(index);
        Ok(())
    }

    /// The resolution of what is captured, as far as it is known before a
    /// frame was captured.
    pub fn get_resolution(&self) -> (resolution: (u32, u32))
        ensures
            resolution == (DEFAULT_DISPLAY_WIDTH, DEFAULT_DISPLAY_HEIGHT),
    {
        (DEFAULT_DISPLAY_WIDTH, DEFAULT_DISPLAY_HEIGHT)
    }
}

} // verus!
