use vstd::prelude::*;
use crate::domain::{
    Automation, BackendError, DisplayInfo, MouseButton, Region, ScreenCapture, ScreenFrame,
};

verus! {

/// A capture backend with a constant hash, blank frames and one 1920x1080 display.
#[derive(Debug, Clone, Copy)]
pub struct FakeCapture;

fn fake_display(width: u32, height: u32) -> (d: DisplayInfo)
    ensures
        d.width == width,
        d.height == height,
        d.is_primary,
{
    DisplayInfo {
        id: 0,
        name: Some(String::from_str("fake")),
        x: 0,
        y: 0,
        width,
        height,
        scale_permille: 1000,
        is_primary: true,
    }
}

impl ScreenCapture for FakeCapture {
    fn hash_region(&self, region: &Region, downscale: u32) -> u64 {
        42
    }

    fn capture_region(&self, region: &Region) -> Result<ScreenFrame, BackendError> {
        let width: u32 = if region.rect.width >= 1 { region.rect.width } else { 1 };
        let height: u32 = if region.rect.height >= 1 { region.rect.height } else { 1 };
        let size = (width as u64).checked_mul(height as u64);
        let size = match size {
            Some(s) => s.checked_mul(4),
            None => None,
        };
        let size = match size {
            Some(s) if s <= usize::MAX as u64 => s as usize,
            _ => {
                return Err(BackendError::new("fake_capture", "frame too large"));
            },
        };
        let stride = if width <= u32::MAX / 4 { width * 4 } else { u32::MAX };
        Ok(ScreenFrame {
            display: fake_display(width, height),
            width,
            height,
            stride,
            bytes: vec![0u8; size],
            timestamp_ms: 0,
        })
    }

    fn displays(&self) -> Result<Vec<DisplayInfo>, BackendError> {
        let mut v: Vec<DisplayInfo> = Vec::new();
        v.push(fake_display(1920, 1080));
        Ok(v)
    }
}

/// An input backend that accepts every request and does nothing.
#[derive(Debug, Clone, Copy)]
pub struct FakeAutomation;

impl Automation for FakeAutomation {
    fn move_cursor(&self, x: u32, y: u32) -> Result<(), String> {
        Ok(())
    }

    fn click(&self, button: MouseButton) -> Result<(), String> {
        Ok(())
    }

    fn type_text(&self, text: &str) -> Result<(), String> {
        Ok(())
    }

    fn key(&self, key: &str) -> Result<(), String> {
        Ok(())
    }
}

} // verus!
