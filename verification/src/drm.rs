//! The choice of a screen.
use vstd::prelude::*;

verus! {

/// The first place of a list that holds `true`.
pub open spec fn first_true(list: Seq<bool>) -> Option<int>
    decreases list.len(),
{
    if list.len() == 0 {
        None
    } else if list[0] {
        Some(0)
    } else {
        match first_true(list.skip(1)) {
            Some(i) => Some(i + 1),
            None => None,
        }
    }
}

/// The mode that a connector is driven with: the first that it prefers, or else
/// the first; none where no screen is connected, or where it has no mode.
/// `preferred` tells of each mode whether the screen prefers it.
pub fn pick_mode(connected: bool, preferred: &Vec<bool>) -> (r: Option<usize>)
    ensures
        match r {
            Some(m) => connected && preferred@.len() > 0 && m == (match first_true(preferred@) {
                Some(i) => i,
                None => 0,
            }),
            None => !connected || preferred@.len() == 0,
        },
{
    if !connected || preferred.len() == 0 {
        return None;
    }
    let mut i: usize = 0;
    assert(preferred@.skip(0) == preferred@);
    while i < preferred.len()
        invariant
            i <= preferred.len(),
            connected && preferred.len() > 0,
            first_true(preferred@) == (match first_true(preferred@.skip(i as int)) {
                Some(k) => Some(k + i),
                None => None,
            }),
        decreases preferred.len() - i,
    {
        if preferred[i] {
            assert(preferred@.skip(i as int)[0]);
            return Some(i);
        }
        assert(!preferred@.skip(i as int)[0]);
        assert(preferred@.skip(i as int).skip(1) == preferred@.skip(i + 1));
        i = i + 1;
    }
    Some(0)
}

/// All CRTCs of a list of encoders, one encoder after the other; `None` stands
/// for an encoder that could not be read.
pub open spec fn all_crtcs(encoders: Seq<Option<Vec<u32>>>) -> Seq<u32>
    decreases encoders.len(),
{
    if encoders.len() == 0 {
        seq![]
    } else {
        (match encoders[0] {
            Some(list) => list@,
            None => seq![],
        }) + all_crtcs(encoders.skip(1))
    }
}

/// The first CRTC that an encoder can be driven by.
pub fn pick_crtc(encoders: &Vec<Option<Vec<u32>>>) -> (r: Option<u32>)
    ensures
        match r {
            Some(crtc) => all_crtcs(encoders@).len() > 0 && crtc == all_crtcs(encoders@)[0],
            None => all_crtcs(encoders@).len() == 0,
        },
{
    let mut i: usize = 0;
    assert(encoders@.skip(0) == encoders@);
    while i < encoders.len()
        invariant
            i <= encoders.len(),
            all_crtcs(encoders@) == all_crtcs(encoders@.skip(i as int)),
        decreases encoders.len() - i,
    {
        assert(encoders@.skip(i as int).skip(1) == encoders@.skip(i + 1));
        if let Some(list) = &encoders[i] {
            if list.len() > 0 {
                return Some(list[0]);
            }
            assert(list@ == Seq::<u32>::empty());
        }
        assert(all_crtcs(encoders@.skip(i as int)) == all_crtcs(encoders@.skip(i + 1)));
        i = i + 1;
    }
    None
}

/// The width and height of the cursor where the device names none.
pub const DEFAULT_CURSOR: u32 = 64;

/// The size of the cursor: what the device names, if it names any.
pub fn cursor_size(w: u32, h: u32) -> (r: (u32, u32))
    ensures
        r == (if w > 0 && h > 0 {
            (w, h)
        } else {
            (DEFAULT_CURSOR, DEFAULT_CURSOR)
        }),
{
    if w > 0 && h > 0 {
        (w, h)
    } else {
        (DEFAULT_CURSOR, DEFAULT_CURSOR)
    }
}

/// A refresh rate in millihertz, of one in hertz.
pub fn refresh_rate(hertz: u32) -> (r: i32)
    requires
        hertz * 1000 <= i32::MAX,
    ensures
        r == hertz * 1000,
{
    (hertz * 1000) as i32
}

} // verus!
