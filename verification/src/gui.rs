//! Screen-anchored GUI layout.
//!
//! A container is pinned to one of nine anchor positions on the screen;
//! its elements are laid out by offsetting their rectangle toward that
//! anchor and then applying a scale allowance on the sides that face away
//! from it. Coordinates are whole pixels; all arithmetic is exact and
//! proved free of overflow within the stated coordinate bounds.

use vstd::prelude::*;

use crate::resource::ResourceId;

verus! {

/// Largest magnitude a layout coordinate may have; keeps every
/// intermediate sum comfortably inside a 64-bit signed integer.
pub const COORD_BOUND: i64 = 0x1_0000_0000_0000;

/// The nine screen anchor positions a container can take.
#[derive(Clone, Copy, PartialEq, Eq, Structural, Debug)]
pub enum ContainerPosition {
    /// Top-left corner.
    UpLeft,
    /// Centered horizontally at the top.
    UpCenter,
    /// Top-right corner.
    UpRight,
    /// Centered vertically at the left edge.
    MiddleLeft,
    /// Centered both ways.
    MiddleCenter,
    /// Centered vertically at the right edge.
    MiddleRight,
    /// Bottom-left corner.
    BottomLeft,
    /// Centered horizontally at the bottom.
    BottonCenter,
    /// Bottom-right corner.
    BottonRight,
}

/// A clickable element identified by the texture it draws.
pub struct Button {
    texture: ResourceId,
}

impl Button {
    /// The id of the texture this button draws.
    pub closed spec fn spec_texture(&self) -> ResourceId {
        self.texture
    }

    /// Build a button drawing the given texture.
    pub fn new(texture: ResourceId) -> (r: Button)
        ensures
            r.spec_texture()@ == texture@,
    {
        Button { texture }
    }

    /// The id of the texture this button draws.
    pub fn texture(&self) -> (r: &ResourceId)
        ensures
            r@ == self.spec_texture()@,
    {
        &self.texture
    }
}

/// A group of buttons sharing one anchor position.
pub struct Container {
    /// Where on the screen the group is pinned.
    pub position: ContainerPosition,
    /// The elements of the group.
    pub buttons: Vec<Button>,
}

/// Horizontal offset that pins a rectangle of width `w` to the anchor on a
/// display `dw` wide: none at the left, centering in the middle, flush at
/// the right.
pub open spec fn spec_anchor_x(p: ContainerPosition, dw: int, w: int) -> int {
    match p {
        ContainerPosition::UpLeft => 0,
        ContainerPosition::MiddleLeft => 0,
        ContainerPosition::BottomLeft => 0,
        ContainerPosition::UpCenter => dw / 2 - w / 2,
        ContainerPosition::MiddleCenter => dw / 2 - w / 2,
        ContainerPosition::BottonCenter => dw / 2 - w / 2,
        ContainerPosition::UpRight => dw - w,
        ContainerPosition::MiddleRight => dw - w,
        ContainerPosition::BottonRight => dw - w,
    }
}

/// Vertical offset that pins a rectangle of height `h` to the anchor on a
/// display `dh` tall.
pub open spec fn spec_anchor_y(p: ContainerPosition, dh: int, h: int) -> int {
    match p {
        ContainerPosition::UpLeft => 0,
        ContainerPosition::UpCenter => 0,
        ContainerPosition::UpRight => 0,
        ContainerPosition::MiddleLeft => dh / 2 - h / 2,
        ContainerPosition::MiddleCenter => dh / 2 - h / 2,
        ContainerPosition::MiddleRight => dh / 2 - h / 2,
        ContainerPosition::BottomLeft => dh - h,
        ContainerPosition::BottonCenter => dh - h,
        ContainerPosition::BottonRight => dh - h,
    }
}

/// The scale allowance applied to an anchored rectangle: each side facing
/// away from the anchor grows by `scale` hundredths-steps of a pixel
/// hundred.
pub open spec fn spec_scale(p: ContainerPosition, x: int, y: int, w: int, h: int, scale: int) -> (
    int,
    int,
    int,
    int,
) {
    let s = scale * 100;
    match p {
        ContainerPosition::UpLeft => (x, y, w + s, h + s),
        ContainerPosition::UpCenter => (x + s, y, w + s, h + s),
        ContainerPosition::UpRight => (x + s, y, w, h + s),
        ContainerPosition::MiddleLeft => (x, y + s, w + s, h + s),
        ContainerPosition::MiddleCenter => (x + s, y + s, w + s, h + s),
        ContainerPosition::MiddleRight => (x, y + s, w + s, h + s),
        ContainerPosition::BottomLeft => (x, y + s, w + s, h),
        ContainerPosition::BottonCenter => (x + s, y + s, w + s, h),
        ContainerPosition::BottonRight => (x + s, y + s, w, h),
    }
}

/// The full layout of an element: its rectangle is offset toward the
/// anchor, shifted into the container at `(cx, cy)`, and given the scale
/// allowance.
pub open spec fn spec_position(
    p: ContainerPosition,
    dw: int,
    dh: int,
    cx: int,
    cy: int,
    x: int,
    y: int,
    w: int,
    h: int,
    scale: int,
) -> (int, int, int, int) {
    spec_scale(
        p,
        cx + x + spec_anchor_x(p, dw, w),
        cy + y + spec_anchor_y(p, dh, h),
        cx + w,
        cy + h,
        scale,
    )
}

impl ContainerPosition {
    /// Apply the scale allowance to an anchored rectangle.
    pub fn get_scale(&self, x: i64, y: i64, w: i64, h: i64, scale: u8) -> (r: (i64, i64, i64, i64))
        requires
            -3 * COORD_BOUND <= x <= 3 * COORD_BOUND,
            -3 * COORD_BOUND <= y <= 3 * COORD_BOUND,
            -3 * COORD_BOUND <= w <= 3 * COORD_BOUND,
            -3 * COORD_BOUND <= h <= 3 * COORD_BOUND,
        ensures
            r.0 == spec_scale(*self, x as int, y as int, w as int, h as int, scale as int).0,
            r.1 == spec_scale(*self, x as int, y as int, w as int, h as int, scale as int).1,
            r.2 == spec_scale(*self, x as int, y as int, w as int, h as int, scale as int).2,
            r.3 == spec_scale(*self, x as int, y as int, w as int, h as int, scale as int).3,
    {
        let s: i64 = (scale as i64) * 100;
        match self {
            ContainerPosition::UpLeft => (x, y, w + s, h + s),
            ContainerPosition::UpCenter => (x + s, y, w + s, h + s),
            ContainerPosition::UpRight => (x + s, y, w, h + s),
            ContainerPosition::MiddleLeft => (x, y + s, w + s, h + s),
            ContainerPosition::MiddleCenter => (x + s, y + s, w + s, h + s),
            ContainerPosition::MiddleRight => (x, y + s, w + s, h + s),
            ContainerPosition::BottomLeft => (x, y + s, w + s, h),
            ContainerPosition::BottonCenter => (x + s, y + s, w + s, h),
            ContainerPosition::BottonRight => (x + s, y + s, w, h),
        }
    }

    /// Lay out one element: anchor its rectangle on a `dw` by `dh`
    /// display, shift it into the container at `(cx, cy)`, and apply the
    /// scale allowance.
    pub fn get_position(
        &self,
        dw: u32,
        dh: u32,
        cx: i64,
        cy: i64,
        x: i64,
        y: i64,
        w: u32,
        h: u32,
        scale: u8,
    ) -> (r: (i64, i64, i64, i64))
        requires
            -COORD_BOUND <= cx <= COORD_BOUND,
            -COORD_BOUND <= cy <= COORD_BOUND,
            -COORD_BOUND <= x <= COORD_BOUND,
            -COORD_BOUND <= y <= COORD_BOUND,
        ensures
            r.0 == spec_position(
                *self,
                dw as int,
                dh as int,
                cx as int,
                cy as int,
                x as int,
                y as int,
                w as int,
                h as int,
                scale as int,
            ).0,
            r.1 == spec_position(
                *self,
                dw as int,
                dh as int,
                cx as int,
                cy as int,
                x as int,
                y as int,
                w as int,
                h as int,
                scale as int,
            ).1,
            r.2 == spec_position(
                *self,
                dw as int,
                dh as int,
                cx as int,
                cy as int,
                x as int,
                y as int,
                w as int,
                h as int,
                scale as int,
            ).2,
            r.3 == spec_position(
                *self,
                dw as int,
                dh as int,
                cx as int,
                cy as int,
                x as int,
                y as int,
                w as int,
                h as int,
                scale as int,
            ).3,
    {
        let ax: i64 = match self {
            ContainerPosition::UpLeft => 0,
            ContainerPosition::MiddleLeft => 0,
            ContainerPosition::BottomLeft => 0,
            ContainerPosition::UpCenter => (dw / 2) as i64 - (w / 2) as i64,
            ContainerPosition::MiddleCenter => (dw / 2) as i64 - (w / 2) as i64,
            ContainerPosition::BottonCenter => (dw / 2) as i64 - (w / 2) as i64,
            ContainerPosition::UpRight => dw as i64 - w as i64,
            ContainerPosition::MiddleRight => dw as i64 - w as i64,
            ContainerPosition::BottonRight => dw as i64 - w as i64,
        };
        let ay: i64 = match self {
            ContainerPosition::UpLeft => 0,
            ContainerPosition::UpCenter => 0,
            ContainerPosition::UpRight => 0,
            ContainerPosition::MiddleLeft => (dh / 2) as i64 - (h / 2) as i64,
            ContainerPosition::MiddleCenter => (dh / 2) as i64 - (h / 2) as i64,
            ContainerPosition::MiddleRight => (dh / 2) as i64 - (h / 2) as i64,
            ContainerPosition::BottomLeft => dh as i64 - h as i64,
            ContainerPosition::BottonCenter => dh as i64 - h as i64,
            ContainerPosition::BottonRight => dh as i64 - h as i64,
        };
        self.get_scale(cx + x + ax, cy + y + ay, cx + w as i64, cy + h as i64, scale)
    }
}

} // verus!
