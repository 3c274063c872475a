//! Product-definition templates: one fixed byte layout per template
//! number. All share the parameter identification and the fixed-surface
//! fields; the statistical templates carry an explicit end of the overall
//! time interval, used as the valid time in place of reference time plus
//! forecast offset.

use crate::bytes::{be_u16, be_u32, i32_be, i8_be, sign_magnitude32, sign_magnitude8, u16_be, u32_be, u8_be};
use crate::datetime::{
    advance_datetime, datetime_be, datetime_of, shifted, time_span_be, time_span_of,
    valid_datetime, GribDateTime,
};
use vstd::prelude::*;

verus! {

/// Template 4.0: instant or forecast product.
pub struct Template0 {
    buf: Vec<u8>,
}

impl View for Template0 {
    type V = Seq<u8>;

    closed spec fn view(&self) -> Seq<u8> {
        self.buf@
    }
}

impl Template0 {
    /// The bytes this template's layout needs.
    pub open spec fn wf(&self) -> bool {
        self@.len() >= 34
    }

    /// Wraps a section's bytes; nothing for a buffer too short.
    pub fn create(buf: Vec<u8>) -> (r: Option<Self>)
        ensures
            r is Some <==> buf@.len() >= 34,
            r matches Some(t) ==> t@ == buf@,
    {
        if buf.len() >= 34 {
            Some(Self { buf })
        } else {
            None
        }
    }

    /// Category of the parameter.
    pub fn parameter_category(&self) -> (r: usize)
        requires
            self.wf(),
        ensures
            r == self@[9],
    {
        u8_be(self.buf.as_slice(), 9) as usize
    }

    /// Number of the parameter within its category.
    pub fn parameter_number(&self) -> (r: usize)
        requires
            self.wf(),
        ensures
            r == self@[10],
    {
        u8_be(self.buf.as_slice(), 10) as usize
    }

    /// Type of the generating process.
    pub fn generating_type(&self) -> (r: usize)
        requires
            self.wf(),
        ensures
            r == self@[11],
    {
        u8_be(self.buf.as_slice(), 11) as usize
    }

    /// Background generating process identifier.
    pub fn background_generating_identifier(&self) -> (r: usize)
        requires
            self.wf(),
        ensures
            r == self@[12],
    {
        u8_be(self.buf.as_slice(), 12) as usize
    }

    /// Hours after the reference time of the data cut-off.
    pub fn cut_off_hours(&self) -> (r: usize)
        requires
            self.wf(),
        ensures
            r == be_u16(self@, 14),
    {
        u16_be(self.buf.as_slice(), 14) as usize
    }

    /// Minutes after the reference time of the data cut-off.
    pub fn cut_off_minutes(&self) -> (r: usize)
        requires
            self.wf(),
        ensures
            r == self@[16],
    {
        u8_be(self.buf.as_slice(), 16) as usize
    }

    /// Forecast offset from the reference time, in seconds; nothing for
    /// an unrecognized time unit.
    pub fn forecast_time_span(&self) -> (r: Option<u64>)
        requires
            self.wf(),
        ensures
            r matches Some(x) ==> time_span_of(self@, 17) == Some(x as int),
            r is Some <==> time_span_of(self@, 17) is Some,
    {
        time_span_be(self.buf.as_slice(), 17)
    }

    /// Type of the first fixed surface.
    pub fn first_plane_type(&self) -> (r: usize)
        requires
            self.wf(),
        ensures
            r == self@[22],
    {
        u8_be(self.buf.as_slice(), 22) as usize
    }

    /// Scale factor of the first fixed surface.
    pub fn first_plane_factor(&self) -> (r: isize)
        requires
            self.wf(),
        ensures
            r == sign_magnitude8(self@[23] as int),
    {
        i8_be(self.buf.as_slice(), 23) as isize
    }

    /// Scaled value of the first fixed surface.
    pub fn first_plane_value(&self) -> (r: isize)
        requires
            self.wf(),
        ensures
            r == sign_magnitude32(be_u32(self@, 24)),
    {
        i32_be(self.buf.as_slice(), 24) as isize
    }

    /// Type of the second fixed surface.
    pub fn second_plane_type(&self) -> (r: usize)
        requires
            self.wf(),
        ensures
            r == self@[28],
    {
        u8_be(self.buf.as_slice(), 28) as usize
    }

    /// Scale factor of the second fixed surface.
    pub fn second_plane_factor(&self) -> (r: isize)
        requires
            self.wf(),
        ensures
            r == sign_magnitude8(self@[29] as int),
    {
        i8_be(self.buf.as_slice(), 29) as isize
    }

    /// Scaled value of the second fixed surface.
    pub fn second_plane_value(&self) -> (r: isize)
        requires
            self.wf(),
        ensures
            r == sign_magnitude32(be_u32(self@, 30)),
    {
        i32_be(self.buf.as_slice(), 30) as isize
    }

    /// The valid time of the data: the reference time moved forward by
    /// the forecast offset; nothing when the time unit is unrecognized or
    /// the calendar shift is declined.
    pub fn datetime(&self, reference: &GribDateTime) -> (r: Option<GribDateTime>)
        requires
            self.wf(),
        ensures
            r is Some ==> time_span_of(self@, 17) is Some,
            r matches Some(x) ==> x == shifted(*reference, time_span_of(self@, 17).unwrap()),
            (time_span_of(self@, 17) matches Some(sp) && valid_datetime(*reference)
                && reference.year <= 9999 && sp <= u32::MAX) ==> r is Some,
    {
        match self.forecast_time_span() {
            Some(sp) => advance_datetime(reference, sp),
            None => None,
        }
    }

}

/// Template 4.1: instant or forecast product.
pub struct Template1 {
    buf: Vec<u8>,
}

impl View for Template1 {
    type V = Seq<u8>;

    closed spec fn view(&self) -> Seq<u8> {
        self.buf@
    }
}

impl Template1 {
    /// The bytes this template's layout needs.
    pub open spec fn wf(&self) -> bool {
        self@.len() >= 34
    }

    /// Wraps a section's bytes; nothing for a buffer too short.
    pub fn create(buf: Vec<u8>) -> (r: Option<Self>)
        ensures
            r is Some <==> buf@.len() >= 34,
            r matches Some(t) ==> t@ == buf@,
    {
        if buf.len() >= 34 {
            Some(Self { buf })
        } else {
            None
        }
    }

    /// Category of the parameter.
    pub fn parameter_category(&self) -> (r: usize)
        requires
            self.wf(),
        ensures
            r == self@[9],
    {
        u8_be(self.buf.as_slice(), 9) as usize
    }

    /// Number of the parameter within its category.
    pub fn parameter_number(&self) -> (r: usize)
        requires
            self.wf(),
        ensures
            r == self@[10],
    {
        u8_be(self.buf.as_slice(), 10) as usize
    }

    /// Type of the generating process.
    pub fn generating_type(&self) -> (r: usize)
        requires
            self.wf(),
        ensures
            r == self@[11],
    {
        u8_be(self.buf.as_slice(), 11) as usize
    }

    /// Background generating process identifier.
    pub fn background_generating_identifier(&self) -> (r: usize)
        requires
            self.wf(),
        ensures
            r == self@[12],
    {
        u8_be(self.buf.as_slice(), 12) as usize
    }

    /// Hours after the reference time of the data cut-off.
    pub fn cut_off_hours(&self) -> (r: usize)
        requires
            self.wf(),
        ensures
            r == be_u16(self@, 14),
    {
        u16_be(self.buf.as_slice(), 14) as usize
    }

    /// Minutes after the reference time of the data cut-off.
    pub fn cut_off_minutes(&self) -> (r: usize)
        requires
            self.wf(),
        ensures
            r == self@[16],
    {
        u8_be(self.buf.as_slice(), 16) as usize
    }

    /// Forecast offset from the reference time, in seconds; nothing for
    /// an unrecognized time unit.
    pub fn forecast_time_span(&self) -> (r: Option<u64>)
        requires
            self.wf(),
        ensures
            r matches Some(x) ==> time_span_of(self@, 17) == Some(x as int),
            r is Some <==> time_span_of(self@, 17) is Some,
    {
        time_span_be(self.buf.as_slice(), 17)
    }

    /// Type of the first fixed surface.
    pub fn first_plane_type(&self) -> (r: usize)
        requires
            self.wf(),
        ensures
            r == self@[22],
    {
        u8_be(self.buf.as_slice(), 22) as usize
    }

    /// Scale factor of the first fixed surface.
    pub fn first_plane_factor(&self) -> (r: isize)
        requires
            self.wf(),
        ensures
            r == sign_magnitude8(self@[23] as int),
    {
        i8_be(self.buf.as_slice(), 23) as isize
    }

    /// Scaled value of the first fixed surface.
    pub fn first_plane_value(&self) -> (r: isize)
        requires
            self.wf(),
        ensures
            r == sign_magnitude32(be_u32(self@, 24)),
    {
        i32_be(self.buf.as_slice(), 24) as isize
    }

    /// Type of the second fixed surface.
    pub fn second_plane_type(&self) -> (r: usize)
        requires
            self.wf(),
        ensures
            r == self@[28],
    {
        u8_be(self.buf.as_slice(), 28) as usize
    }

    /// Scale factor of the second fixed surface.
    pub fn second_plane_factor(&self) -> (r: isize)
        requires
            self.wf(),
        ensures
            r == sign_magnitude8(self@[29] as int),
    {
        i8_be(self.buf.as_slice(), 29) as isize
    }

    /// Scaled value of the second fixed surface.
    pub fn second_plane_value(&self) -> (r: isize)
        requires
            self.wf(),
        ensures
            r == sign_magnitude32(be_u32(self@, 30)),
    {
        i32_be(self.buf.as_slice(), 30) as isize
    }

    /// The valid time of the data: the reference time moved forward by
    /// the forecast offset; nothing when the time unit is unrecognized or
    /// the calendar shift is declined.
    pub fn datetime(&self, reference: &GribDateTime) -> (r: Option<GribDateTime>)
        requires
            self.wf(),
        ensures
            r is Some ==> time_span_of(self@, 17) is Some,
            r matches Some(x) ==> x == shifted(*reference, time_span_of(self@, 17).unwrap()),
            (time_span_of(self@, 17) matches Some(sp) && valid_datetime(*reference)
                && reference.year <= 9999 && sp <= u32::MAX) ==> r is Some,
    {
        match self.forecast_time_span() {
            Some(sp) => advance_datetime(reference, sp),
            None => None,
        }
    }

}

/// Template 4.8: statistical product.
pub struct Template8 {
    buf: Vec<u8>,
}

impl View for Template8 {
    type V = Seq<u8>;

    closed spec fn view(&self) -> Seq<u8> {
        self.buf@
    }
}

impl Template8 {
    /// The bytes this template's layout needs.
    pub open spec fn wf(&self) -> bool {
        self@.len() >= 53
    }

    /// Wraps a section's bytes; nothing for a buffer too short.
    pub fn create(buf: Vec<u8>) -> (r: Option<Self>)
        ensures
            r is Some <==> buf@.len() >= 53,
            r matches Some(t) ==> t@ == buf@,
    {
        if buf.len() >= 53 {
            Some(Self { buf })
        } else {
            None
        }
    }

    /// Category of the parameter.
    pub fn parameter_category(&self) -> (r: usize)
        requires
            self.wf(),
        ensures
            r == self@[9],
    {
        u8_be(self.buf.as_slice(), 9) as usize
    }

    /// Number of the parameter within its category.
    pub fn parameter_number(&self) -> (r: usize)
        requires
            self.wf(),
        ensures
            r == self@[10],
    {
        u8_be(self.buf.as_slice(), 10) as usize
    }

    /// Type of the generating process.
    pub fn generating_type(&self) -> (r: usize)
        requires
            self.wf(),
        ensures
            r == self@[11],
    {
        u8_be(self.buf.as_slice(), 11) as usize
    }

    /// Background generating process identifier.
    pub fn background_generating_identifier(&self) -> (r: usize)
        requires
            self.wf(),
        ensures
            r == self@[12],
    {
        u8_be(self.buf.as_slice(), 12) as usize
    }

    /// Hours after the reference time of the data cut-off.
    pub fn cut_off_hours(&self) -> (r: usize)
        requires
            self.wf(),
        ensures
            r == be_u16(self@, 14),
    {
        u16_be(self.buf.as_slice(), 14) as usize
    }

    /// Minutes after the reference time of the data cut-off.
    pub fn cut_off_minutes(&self) -> (r: usize)
        requires
            self.wf(),
        ensures
            r == self@[16],
    {
        u8_be(self.buf.as_slice(), 16) as usize
    }

    /// Forecast offset from the reference time, in seconds; nothing for
    /// an unrecognized time unit.
    pub fn forecast_time_span(&self) -> (r: Option<u64>)
        requires
            self.wf(),
        ensures
            r matches Some(x) ==> time_span_of(self@, 17) == Some(x as int),
            r is Some <==> time_span_of(self@, 17) is Some,
    {
        time_span_be(self.buf.as_slice(), 17)
    }

    /// Type of the first fixed surface.
    pub fn first_plane_type(&self) -> (r: usize)
        requires
            self.wf(),
        ensures
            r == self@[22],
    {
        u8_be(self.buf.as_slice(), 22) as usize
    }

    /// Scale factor of the first fixed surface.
    pub fn first_plane_factor(&self) -> (r: isize)
        requires
            self.wf(),
        ensures
            r == sign_magnitude8(self@[23] as int),
    {
        i8_be(self.buf.as_slice(), 23) as isize
    }

    /// Scaled value of the first fixed surface.
    pub fn first_plane_value(&self) -> (r: isize)
        requires
            self.wf(),
        ensures
            r == sign_magnitude32(be_u32(self@, 24)),
    {
        i32_be(self.buf.as_slice(), 24) as isize
    }

    /// Type of the second fixed surface.
    pub fn second_plane_type(&self) -> (r: usize)
        requires
            self.wf(),
        ensures
            r == self@[28],
    {
        u8_be(self.buf.as_slice(), 28) as usize
    }

    /// Scale factor of the second fixed surface.
    pub fn second_plane_factor(&self) -> (r: isize)
        requires
            self.wf(),
        ensures
            r == sign_magnitude8(self@[29] as int),
    {
        i8_be(self.buf.as_slice(), 29) as isize
    }

    /// Scaled value of the second fixed surface.
    pub fn second_plane_value(&self) -> (r: isize)
        requires
            self.wf(),
        ensures
            r == sign_magnitude32(be_u32(self@, 30)),
    {
        i32_be(self.buf.as_slice(), 30) as isize
    }

    /// End of the overall time interval.
    pub fn end_time(&self) -> (r: GribDateTime)
        requires
            self.wf(),
        ensures
            r == datetime_of(self@, 34),
    {
        datetime_be(self.buf.as_slice(), 34)
    }

    /// Statistical process used over the time interval.
    pub fn statistics_type(&self) -> (r: usize)
        requires
            self.wf(),
        ensures
            r == self@[46],
    {
        u8_be(self.buf.as_slice(), 46) as usize
    }

    /// Length of the time range the statistical process covers, in
    /// seconds; nothing for an unrecognized time unit.
    pub fn statistics_time_span(&self) -> (r: Option<u64>)
        requires
            self.wf(),
        ensures
            r matches Some(x) ==> time_span_of(self@, 48) == Some(x as int),
            r is Some <==> time_span_of(self@, 48) is Some,
    {
        time_span_be(self.buf.as_slice(), 48)
    }

    /// The valid time of the data: the explicit end of the overall time
    /// interval, whatever the reference time.
    pub fn datetime(&self, reference: &GribDateTime) -> (r: Option<GribDateTime>)
        requires
            self.wf(),
        ensures
            r == Some(datetime_of(self@, 34)),
    {
        let _ = reference;
        Some(self.end_time())
    }

}

/// Template 4.9: statistical product.
pub struct Template9 {
    buf: Vec<u8>,
}

impl View for Template9 {
    type V = Seq<u8>;

    closed spec fn view(&self) -> Seq<u8> {
        self.buf@
    }
}

impl Template9 {
    /// The bytes this template's layout needs.
    pub open spec fn wf(&self) -> bool {
        self@.len() >= 66
    }

    /// Wraps a section's bytes; nothing for a buffer too short.
    pub fn create(buf: Vec<u8>) -> (r: Option<Self>)
        ensures
            r is Some <==> buf@.len() >= 66,
            r matches Some(t) ==> t@ == buf@,
    {
        if buf.len() >= 66 {
            Some(Self { buf })
        } else {
            None
        }
    }

    /// Category of the parameter.
    pub fn parameter_category(&self) -> (r: usize)
        requires
            self.wf(),
        ensures
            r == self@[9],
    {
        u8_be(self.buf.as_slice(), 9) as usize
    }

    /// Number of the parameter within its category.
    pub fn parameter_number(&self) -> (r: usize)
        requires
            self.wf(),
        ensures
            r == self@[10],
    {
        u8_be(self.buf.as_slice(), 10) as usize
    }

    /// Type of the generating process.
    pub fn generating_type(&self) -> (r: usize)
        requires
            self.wf(),
        ensures
            r == self@[11],
    {
        u8_be(self.buf.as_slice(), 11) as usize
    }

    /// Background generating process identifier.
    pub fn background_generating_identifier(&self) -> (r: usize)
        requires
            self.wf(),
        ensures
            r == self@[12],
    {
        u8_be(self.buf.as_slice(), 12) as usize
    }

    /// Hours after the reference time of the data cut-off.
    pub fn cut_off_hours(&self) -> (r: usize)
        requires
            self.wf(),
        ensures
            r == be_u16(self@, 14),
    {
        u16_be(self.buf.as_slice(), 14) as usize
    }

    /// Minutes after the reference time of the data cut-off.
    pub fn cut_off_minutes(&self) -> (r: usize)
        requires
            self.wf(),
        ensures
            r == self@[16],
    {
        u8_be(self.buf.as_slice(), 16) as usize
    }

    /// Forecast offset from the reference time, in seconds; nothing for
    /// an unrecognized time unit.
    pub fn forecast_time_span(&self) -> (r: Option<u64>)
        requires
            self.wf(),
        ensures
            r matches Some(x) ==> time_span_of(self@, 17) == Some(x as int),
            r is Some <==> time_span_of(self@, 17) is Some,
    {
        time_span_be(self.buf.as_slice(), 17)
    }

    /// Type of the first fixed surface.
    pub fn first_plane_type(&self) -> (r: usize)
        requires
            self.wf(),
        ensures
            r == self@[22],
    {
        u8_be(self.buf.as_slice(), 22) as usize
    }

    /// Scale factor of the first fixed surface.
    pub fn first_plane_factor(&self) -> (r: isize)
        requires
            self.wf(),
        ensures
            r == sign_magnitude8(self@[23] as int),
    {
        i8_be(self.buf.as_slice(), 23) as isize
    }

    /// Scaled value of the first fixed surface.
    pub fn first_plane_value(&self) -> (r: isize)
        requires
            self.wf(),
        ensures
            r == sign_magnitude32(be_u32(self@, 24)),
    {
        i32_be(self.buf.as_slice(), 24) as isize
    }

    /// Type of the second fixed surface.
    pub fn second_plane_type(&self) -> (r: usize)
        requires
            self.wf(),
        ensures
            r == self@[28],
    {
        u8_be(self.buf.as_slice(), 28) as usize
    }

    /// Scale factor of the second fixed surface.
    pub fn second_plane_factor(&self) -> (r: isize)
        requires
            self.wf(),
        ensures
            r == sign_magnitude8(self@[29] as int),
    {
        i8_be(self.buf.as_slice(), 29) as isize
    }

    /// Scaled value of the second fixed surface.
    pub fn second_plane_value(&self) -> (r: isize)
        requires
            self.wf(),
        ensures
            r == sign_magnitude32(be_u32(self@, 30)),
    {
        i32_be(self.buf.as_slice(), 30) as isize
    }

    /// End of the overall time interval.
    pub fn end_time(&self) -> (r: GribDateTime)
        requires
            self.wf(),
        ensures
            r == datetime_of(self@, 47),
    {
        datetime_be(self.buf.as_slice(), 47)
    }

    /// Statistical process used over the time interval.
    pub fn statistics_type(&self) -> (r: usize)
        requires
            self.wf(),
        ensures
            r == self@[59],
    {
        u8_be(self.buf.as_slice(), 59) as usize
    }

    /// Length of the time range the statistical process covers, in
    /// seconds; nothing for an unrecognized time unit.
    pub fn statistics_time_span(&self) -> (r: Option<u64>)
        requires
            self.wf(),
        ensures
            r matches Some(x) ==> time_span_of(self@, 61) == Some(x as int),
            r is Some <==> time_span_of(self@, 61) is Some,
    {
        time_span_be(self.buf.as_slice(), 61)
    }

    /// The valid time of the data: the explicit end of the overall time
    /// interval, whatever the reference time.
    pub fn datetime(&self, reference: &GribDateTime) -> (r: Option<GribDateTime>)
        requires
            self.wf(),
        ensures
            r == Some(datetime_of(self@, 47)),
    {
        let _ = reference;
        Some(self.end_time())
    }

}

/// Template 4.11: statistical product.
pub struct Template11 {
    buf: Vec<u8>,
}

impl View for Template11 {
    type V = Seq<u8>;

    closed spec fn view(&self) -> Seq<u8> {
        self.buf@
    }
}

impl Template11 {
    /// The bytes this template's layout needs.
    pub open spec fn wf(&self) -> bool {
        self@.len() >= 56
    }

    /// Wraps a section's bytes; nothing for a buffer too short.
    pub fn create(buf: Vec<u8>) -> (r: Option<Self>)
        ensures
            r is Some <==> buf@.len() >= 56,
            r matches Some(t) ==> t@ == buf@,
    {
        if buf.len() >= 56 {
            Some(Self { buf })
        } else {
            None
        }
    }

    /// Category of the parameter.
    pub fn parameter_category(&self) -> (r: usize)
        requires
            self.wf(),
        ensures
            r == self@[9],
    {
        u8_be(self.buf.as_slice(), 9) as usize
    }

    /// Number of the parameter within its category.
    pub fn parameter_number(&self) -> (r: usize)
        requires
            self.wf(),
        ensures
            r == self@[10],
    {
        u8_be(self.buf.as_slice(), 10) as usize
    }

    /// Type of the generating process.
    pub fn generating_type(&self) -> (r: usize)
        requires
            self.wf(),
        ensures
            r == self@[11],
    {
        u8_be(self.buf.as_slice(), 11) as usize
    }

    /// Background generating process identifier.
    pub fn background_generating_identifier(&self) -> (r: usize)
        requires
            self.wf(),
        ensures
            r == self@[12],
    {
        u8_be(self.buf.as_slice(), 12) as usize
    }

    /// Hours after the reference time of the data cut-off.
    pub fn cut_off_hours(&self) -> (r: usize)
        requires
            self.wf(),
        ensures
            r == be_u16(self@, 14),
    {
        u16_be(self.buf.as_slice(), 14) as usize
    }

    /// Minutes after the reference time of the data cut-off.
    pub fn cut_off_minutes(&self) -> (r: usize)
        requires
            self.wf(),
        ensures
            r == self@[16],
    {
        u8_be(self.buf.as_slice(), 16) as usize
    }

    /// Forecast offset from the reference time, in seconds; nothing for
    /// an unrecognized time unit.
    pub fn forecast_time_span(&self) -> (r: Option<u64>)
        requires
            self.wf(),
        ensures
            r matches Some(x) ==> time_span_of(self@, 17) == Some(x as int),
            r is Some <==> time_span_of(self@, 17) is Some,
    {
        time_span_be(self.buf.as_slice(), 17)
    }

    /// Type of the first fixed surface.
    pub fn first_plane_type(&self) -> (r: usize)
        requires
            self.wf(),
        ensures
            r == self@[22],
    {
        u8_be(self.buf.as_slice(), 22) as usize
    }

    /// Scale factor of the first fixed surface.
    pub fn first_plane_factor(&self) -> (r: isize)
        requires
            self.wf(),
        ensures
            r == sign_magnitude8(self@[23] as int),
    {
        i8_be(self.buf.as_slice(), 23) as isize
    }

    /// Scaled value of the first fixed surface.
    pub fn first_plane_value(&self) -> (r: isize)
        requires
            self.wf(),
        ensures
            r == sign_magnitude32(be_u32(self@, 24)),
    {
        i32_be(self.buf.as_slice(), 24) as isize
    }

    /// Type of the second fixed surface.
    pub fn second_plane_type(&self) -> (r: usize)
        requires
            self.wf(),
        ensures
            r == self@[28],
    {
        u8_be(self.buf.as_slice(), 28) as usize
    }

    /// Scale factor of the second fixed surface.
    pub fn second_plane_factor(&self) -> (r: isize)
        requires
            self.wf(),
        ensures
            r == sign_magnitude8(self@[29] as int),
    {
        i8_be(self.buf.as_slice(), 29) as isize
    }

    /// Scaled value of the second fixed surface.
    pub fn second_plane_value(&self) -> (r: isize)
        requires
            self.wf(),
        ensures
            r == sign_magnitude32(be_u32(self@, 30)),
    {
        i32_be(self.buf.as_slice(), 30) as isize
    }

    /// End of the overall time interval.
    pub fn end_time(&self) -> (r: GribDateTime)
        requires
            self.wf(),
        ensures
            r == datetime_of(self@, 37),
    {
        datetime_be(self.buf.as_slice(), 37)
    }

    /// Statistical process used over the time interval.
    pub fn statistics_type(&self) -> (r: usize)
        requires
            self.wf(),
        ensures
            r == self@[49],
    {
        u8_be(self.buf.as_slice(), 49) as usize
    }

    /// Length of the time range the statistical process covers, in
    /// seconds; nothing for an unrecognized time unit.
    pub fn statistics_time_span(&self) -> (r: Option<u64>)
        requires
            self.wf(),
        ensures
            r matches Some(x) ==> time_span_of(self@, 51) == Some(x as int),
            r is Some <==> time_span_of(self@, 51) is Some,
    {
        time_span_be(self.buf.as_slice(), 51)
    }

    /// The valid time of the data: the explicit end of the overall time
    /// interval, whatever the reference time.
    pub fn datetime(&self, reference: &GribDateTime) -> (r: Option<GribDateTime>)
        requires
            self.wf(),
        ensures
            r == Some(datetime_of(self@, 37)),
    {
        let _ = reference;
        Some(self.end_time())
    }

}

/// Template 4.50000: instant or forecast product.
pub struct Template50000 {
    buf: Vec<u8>,
}

impl View for Template50000 {
    type V = Seq<u8>;

    closed spec fn view(&self) -> Seq<u8> {
        self.buf@
    }
}

impl Template50000 {
    /// The bytes this template's layout needs.
    pub open spec fn wf(&self) -> bool {
        self@.len() >= 34
    }

    /// Wraps a section's bytes; nothing for a buffer too short.
    pub fn create(buf: Vec<u8>) -> (r: Option<Self>)
        ensures
            r is Some <==> buf@.len() >= 34,
            r matches Some(t) ==> t@ == buf@,
    {
        if buf.len() >= 34 {
            Some(Self { buf })
        } else {
            None
        }
    }

    /// Category of the parameter.
    pub fn parameter_category(&self) -> (r: usize)
        requires
            self.wf(),
        ensures
            r == self@[9],
    {
        u8_be(self.buf.as_slice(), 9) as usize
    }

    /// Number of the parameter within its category.
    pub fn parameter_number(&self) -> (r: usize)
        requires
            self.wf(),
        ensures
            r == self@[10],
    {
        u8_be(self.buf.as_slice(), 10) as usize
    }

    /// Type of the generating process.
    pub fn generating_type(&self) -> (r: usize)
        requires
            self.wf(),
        ensures
            r == self@[11],
    {
        u8_be(self.buf.as_slice(), 11) as usize
    }

    /// Background generating process identifier.
    pub fn background_generating_identifier(&self) -> (r: usize)
        requires
            self.wf(),
        ensures
            r == self@[12],
    {
        u8_be(self.buf.as_slice(), 12) as usize
    }

    /// Hours after the reference time of the data cut-off.
    pub fn cut_off_hours(&self) -> (r: usize)
        requires
            self.wf(),
        ensures
            r == be_u16(self@, 14),
    {
        u16_be(self.buf.as_slice(), 14) as usize
    }

    /// Minutes after the reference time of the data cut-off.
    pub fn cut_off_minutes(&self) -> (r: usize)
        requires
            self.wf(),
        ensures
            r == self@[16],
    {
        u8_be(self.buf.as_slice(), 16) as usize
    }

    /// Forecast offset from the reference time, in seconds; nothing for
    /// an unrecognized time unit.
    pub fn forecast_time_span(&self) -> (r: Option<u64>)
        requires
            self.wf(),
        ensures
            r matches Some(x) ==> time_span_of(self@, 17) == Some(x as int),
            r is Some <==> time_span_of(self@, 17) is Some,
    {
        time_span_be(self.buf.as_slice(), 17)
    }

    /// Type of the first fixed surface.
    pub fn first_plane_type(&self) -> (r: usize)
        requires
            self.wf(),
        ensures
            r == self@[22],
    {
        u8_be(self.buf.as_slice(), 22) as usize
    }

    /// Scale factor of the first fixed surface.
    pub fn first_plane_factor(&self) -> (r: isize)
        requires
            self.wf(),
        ensures
            r == sign_magnitude8(self@[23] as int),
    {
        i8_be(self.buf.as_slice(), 23) as isize
    }

    /// Scaled value of the first fixed surface.
    pub fn first_plane_value(&self) -> (r: isize)
        requires
            self.wf(),
        ensures
            r == sign_magnitude32(be_u32(self@, 24)),
    {
        i32_be(self.buf.as_slice(), 24) as isize
    }

    /// Type of the second fixed surface.
    pub fn second_plane_type(&self) -> (r: usize)
        requires
            self.wf(),
        ensures
            r == self@[28],
    {
        u8_be(self.buf.as_slice(), 28) as usize
    }

    /// Scale factor of the second fixed surface.
    pub fn second_plane_factor(&self) -> (r: isize)
        requires
            self.wf(),
        ensures
            r == sign_magnitude8(self@[29] as int),
    {
        i8_be(self.buf.as_slice(), 29) as isize
    }

    /// Scaled value of the second fixed surface.
    pub fn second_plane_value(&self) -> (r: isize)
        requires
            self.wf(),
        ensures
            r == sign_magnitude32(be_u32(self@, 30)),
    {
        i32_be(self.buf.as_slice(), 30) as isize
    }

    /// The valid time of the data: the reference time moved forward by
    /// the forecast offset; nothing when the time unit is unrecognized or
    /// the calendar shift is declined.
    pub fn datetime(&self, reference: &GribDateTime) -> (r: Option<GribDateTime>)
        requires
            self.wf(),
        ensures
            r is Some ==> time_span_of(self@, 17) is Some,
            r matches Some(x) ==> x == shifted(*reference, time_span_of(self@, 17).unwrap()),
            (time_span_of(self@, 17) matches Some(sp) && valid_datetime(*reference)
                && reference.year <= 9999 && sp <= u32::MAX) ==> r is Some,
    {
        match self.forecast_time_span() {
            Some(sp) => advance_datetime(reference, sp),
            None => None,
        }
    }

}

/// Template 4.50008: statistical product.
pub struct Template50008 {
    buf: Vec<u8>,
}

impl View for Template50008 {
    type V = Seq<u8>;

    closed spec fn view(&self) -> Seq<u8> {
        self.buf@
    }
}

impl Template50008 {
    /// The bytes this template's layout needs.
    pub open spec fn wf(&self) -> bool {
        self@.len() >= 53
    }

    /// Wraps a section's bytes; nothing for a buffer too short.
    pub fn create(buf: Vec<u8>) -> (r: Option<Self>)
        ensures
            r is Some <==> buf@.len() >= 53,
            r matches Some(t) ==> t@ == buf@,
    {
        if buf.len() >= 53 {
            Some(Self { buf })
        } else {
            None
        }
    }

    /// Category of the parameter.
    pub fn parameter_category(&self) -> (r: usize)
        requires
            self.wf(),
        ensures
            r == self@[9],
    {
        u8_be(self.buf.as_slice(), 9) as usize
    }

    /// Number of the parameter within its category.
    pub fn parameter_number(&self) -> (r: usize)
        requires
            self.wf(),
        ensures
            r == self@[10],
    {
        u8_be(self.buf.as_slice(), 10) as usize
    }

    /// Type of the generating process.
    pub fn generating_type(&self) -> (r: usize)
        requires
            self.wf(),
        ensures
            r == self@[11],
    {
        u8_be(self.buf.as_slice(), 11) as usize
    }

    /// Background generating process identifier.
    pub fn background_generating_identifier(&self) -> (r: usize)
        requires
            self.wf(),
        ensures
            r == self@[12],
    {
        u8_be(self.buf.as_slice(), 12) as usize
    }

    /// Hours after the reference time of the data cut-off.
    pub fn cut_off_hours(&self) -> (r: usize)
        requires
            self.wf(),
        ensures
            r == be_u16(self@, 14),
    {
        u16_be(self.buf.as_slice(), 14) as usize
    }

    /// Minutes after the reference time of the data cut-off.
    pub fn cut_off_minutes(&self) -> (r: usize)
        requires
            self.wf(),
        ensures
            r == self@[16],
    {
        u8_be(self.buf.as_slice(), 16) as usize
    }

    /// Forecast offset from the reference time, in seconds; nothing for
    /// an unrecognized time unit.
    pub fn forecast_time_span(&self) -> (r: Option<u64>)
        requires
            self.wf(),
        ensures
            r matches Some(x) ==> time_span_of(self@, 17) == Some(x as int),
            r is Some <==> time_span_of(self@, 17) is Some,
    {
        time_span_be(self.buf.as_slice(), 17)
    }

    /// Type of the first fixed surface.
    pub fn first_plane_type(&self) -> (r: usize)
        requires
            self.wf(),
        ensures
            r == self@[22],
    {
        u8_be(self.buf.as_slice(), 22) as usize
    }

    /// Scale factor of the first fixed surface.
    pub fn first_plane_factor(&self) -> (r: isize)
        requires
            self.wf(),
        ensures
            r == sign_magnitude8(self@[23] as int),
    {
        i8_be(self.buf.as_slice(), 23) as isize
    }

    /// Scaled value of the first fixed surface.
    pub fn first_plane_value(&self) -> (r: isize)
        requires
            self.wf(),
        ensures
            r == sign_magnitude32(be_u32(self@, 24)),
    {
        i32_be(self.buf.as_slice(), 24) as isize
    }

    /// Type of the second fixed surface.
    pub fn second_plane_type(&self) -> (r: usize)
        requires
            self.wf(),
        ensures
            r == self@[28],
    {
        u8_be(self.buf.as_slice(), 28) as usize
    }

    /// Scale factor of the second fixed surface.
    pub fn second_plane_factor(&self) -> (r: isize)
        requires
            self.wf(),
        ensures
            r == sign_magnitude8(self@[29] as int),
    {
        i8_be(self.buf.as_slice(), 29) as isize
    }

    /// Scaled value of the second fixed surface.
    pub fn second_plane_value(&self) -> (r: isize)
        requires
            self.wf(),
        ensures
            r == sign_magnitude32(be_u32(self@, 30)),
    {
        i32_be(self.buf.as_slice(), 30) as isize
    }

    /// End of the overall time interval.
    pub fn end_time(&self) -> (r: GribDateTime)
        requires
            self.wf(),
        ensures
            r == datetime_of(self@, 34),
    {
        datetime_be(self.buf.as_slice(), 34)
    }

    /// Statistical process used over the time interval.
    pub fn statistics_type(&self) -> (r: usize)
        requires
            self.wf(),
        ensures
            r == self@[46],
    {
        u8_be(self.buf.as_slice(), 46) as usize
    }

    /// Length of the time range the statistical process covers, in
    /// seconds; nothing for an unrecognized time unit.
    pub fn statistics_time_span(&self) -> (r: Option<u64>)
        requires
            self.wf(),
        ensures
            r matches Some(x) ==> time_span_of(self@, 48) == Some(x as int),
            r is Some <==> time_span_of(self@, 48) is Some,
    {
        time_span_be(self.buf.as_slice(), 48)
    }

    /// The valid time of the data: the explicit end of the overall time
    /// interval, whatever the reference time.
    pub fn datetime(&self, reference: &GribDateTime) -> (r: Option<GribDateTime>)
        requires
            self.wf(),
        ensures
            r == Some(datetime_of(self@, 34)),
    {
        let _ = reference;
        Some(self.end_time())
    }

}

/// Template 4.50009: statistical product.
pub struct Template50009 {
    buf: Vec<u8>,
}

impl View for Template50009 {
    type V = Seq<u8>;

    closed spec fn view(&self) -> Seq<u8> {
        self.buf@
    }
}

impl Template50009 {
    /// The bytes this template's layout needs.
    pub open spec fn wf(&self) -> bool {
        self@.len() >= 53
    }

    /// Wraps a section's bytes; nothing for a buffer too short.
    pub fn create(buf: Vec<u8>) -> (r: Option<Self>)
        ensures
            r is Some <==> buf@.len() >= 53,
            r matches Some(t) ==> t@ == buf@,
    {
        if buf.len() >= 53 {
            Some(Self { buf })
        } else {
            None
        }
    }

    /// Category of the parameter.
    pub fn parameter_category(&self) -> (r: usize)
        requires
            self.wf(),
        ensures
            r == self@[9],
    {
        u8_be(self.buf.as_slice(), 9) as usize
    }

    /// Number of the parameter within its category.
    pub fn parameter_number(&self) -> (r: usize)
        requires
            self.wf(),
        ensures
            r == self@[10],
    {
        u8_be(self.buf.as_slice(), 10) as usize
    }

    /// Type of the generating process.
    pub fn generating_type(&self) -> (r: usize)
        requires
            self.wf(),
        ensures
            r == self@[11],
    {
        u8_be(self.buf.as_slice(), 11) as usize
    }

    /// Background generating process identifier.
    pub fn background_generating_identifier(&self) -> (r: usize)
        requires
            self.wf(),
        ensures
            r == self@[12],
    {
        u8_be(self.buf.as_slice(), 12) as usize
    }

    /// Hours after the reference time of the data cut-off.
    pub fn cut_off_hours(&self) -> (r: usize)
        requires
            self.wf(),
        ensures
            r == be_u16(self@, 14),
    {
        u16_be(self.buf.as_slice(), 14) as usize
    }

    /// Minutes after the reference time of the data cut-off.
    pub fn cut_off_minutes(&self) -> (r: usize)
        requires
            self.wf(),
        ensures
            r == self@[16],
    {
        u8_be(self.buf.as_slice(), 16) as usize
    }

    /// Forecast offset from the reference time, in seconds; nothing for
    /// an unrecognized time unit.
    pub fn forecast_time_span(&self) -> (r: Option<u64>)
        requires
            self.wf(),
        ensures
            r matches Some(x) ==> time_span_of(self@, 17) == Some(x as int),
            r is Some <==> time_span_of(self@, 17) is Some,
    {
        time_span_be(self.buf.as_slice(), 17)
    }

    /// Type of the first fixed surface.
    pub fn first_plane_type(&self) -> (r: usize)
        requires
            self.wf(),
        ensures
            r == self@[22],
    {
        u8_be(self.buf.as_slice(), 22) as usize
    }

    /// Scale factor of the first fixed surface.
    pub fn first_plane_factor(&self) -> (r: isize)
        requires
            self.wf(),
        ensures
            r == sign_magnitude8(self@[23] as int),
    {
        i8_be(self.buf.as_slice(), 23) as isize
    }

    /// Scaled value of the first fixed surface.
    pub fn first_plane_value(&self) -> (r: isize)
        requires
            self.wf(),
        ensures
            r == sign_magnitude32(be_u32(self@, 24)),
    {
        i32_be(self.buf.as_slice(), 24) as isize
    }

    /// Type of the second fixed surface.
    pub fn second_plane_type(&self) -> (r: usize)
        requires
            self.wf(),
        ensures
            r == self@[28],
    {
        u8_be(self.buf.as_slice(), 28) as usize
    }

    /// Scale factor of the second fixed surface.
    pub fn second_plane_factor(&self) -> (r: isize)
        requires
            self.wf(),
        ensures
            r == sign_magnitude8(self@[29] as int),
    {
        i8_be(self.buf.as_slice(), 29) as isize
    }

    /// Scaled value of the second fixed surface.
    pub fn second_plane_value(&self) -> (r: isize)
        requires
            self.wf(),
        ensures
            r == sign_magnitude32(be_u32(self@, 30)),
    {
        i32_be(self.buf.as_slice(), 30) as isize
    }

    /// End of the overall time interval.
    pub fn end_time(&self) -> (r: GribDateTime)
        requires
            self.wf(),
        ensures
            r == datetime_of(self@, 34),
    {
        datetime_be(self.buf.as_slice(), 34)
    }

    /// Statistical process used over the time interval.
    pub fn statistics_type(&self) -> (r: usize)
        requires
            self.wf(),
        ensures
            r == self@[46],
    {
        u8_be(self.buf.as_slice(), 46) as usize
    }

    /// Length of the time range the statistical process covers, in
    /// seconds; nothing for an unrecognized time unit.
    pub fn statistics_time_span(&self) -> (r: Option<u64>)
        requires
            self.wf(),
        ensures
            r matches Some(x) ==> time_span_of(self@, 48) == Some(x as int),
            r is Some <==> time_span_of(self@, 48) is Some,
    {
        time_span_be(self.buf.as_slice(), 48)
    }

    /// The valid time of the data: the explicit end of the overall time
    /// interval, whatever the reference time.
    pub fn datetime(&self, reference: &GribDateTime) -> (r: Option<GribDateTime>)
        requires
            self.wf(),
        ensures
            r == Some(datetime_of(self@, 34)),
    {
        let _ = reference;
        Some(self.end_time())
    }

}

/// Template 4.50011: statistical product.
pub struct Template50011 {
    buf: Vec<u8>,
}

impl View for Template50011 {
    type V = Seq<u8>;

    closed spec fn view(&self) -> Seq<u8> {
        self.buf@
    }
}

impl Template50011 {
    /// The bytes this template's layout needs.
    pub open spec fn wf(&self) -> bool {
        self@.len() >= 53
    }

    /// Wraps a section's bytes; nothing for a buffer too short.
    pub fn create(buf: Vec<u8>) -> (r: Option<Self>)
        ensures
            r is Some <==> buf@.len() >= 53,
            r matches Some(t) ==> t@ == buf@,
    {
        if buf.len() >= 53 {
            Some(Self { buf })
        } else {
            None
        }
    }

    /// Category of the parameter.
    pub fn parameter_category(&self) -> (r: usize)
        requires
            self.wf(),
        ensures
            r == self@[9],
    {
        u8_be(self.buf.as_slice(), 9) as usize
    }

    /// Number of the parameter within its category.
    pub fn parameter_number(&self) -> (r: usize)
        requires
            self.wf(),
        ensures
            r == self@[10],
    {
        u8_be(self.buf.as_slice(), 10) as usize
    }

    /// Type of the generating process.
    pub fn generating_type(&self) -> (r: usize)
        requires
            self.wf(),
        ensures
            r == self@[11],
    {
        u8_be(self.buf.as_slice(), 11) as usize
    }

    /// Background generating process identifier.
    pub fn background_generating_identifier(&self) -> (r: usize)
        requires
            self.wf(),
        ensures
            r == self@[12],
    {
        u8_be(self.buf.as_slice(), 12) as usize
    }

    /// Hours after the reference time of the data cut-off.
    pub fn cut_off_hours(&self) -> (r: usize)
        requires
            self.wf(),
        ensures
            r == be_u16(self@, 14),
    {
        u16_be(self.buf.as_slice(), 14) as usize
    }

    /// Minutes after the reference time of the data cut-off.
    pub fn cut_off_minutes(&self) -> (r: usize)
        requires
            self.wf(),
        ensures
            r == self@[16],
    {
        u8_be(self.buf.as_slice(), 16) as usize
    }

    /// Forecast offset from the reference time, in seconds; nothing for
    /// an unrecognized time unit.
    pub fn forecast_time_span(&self) -> (r: Option<u64>)
        requires
            self.wf(),
        ensures
            r matches Some(x) ==> time_span_of(self@, 17) == Some(x as int),
            r is Some <==> time_span_of(self@, 17) is Some,
    {
        time_span_be(self.buf.as_slice(), 17)
    }

    /// Type of the first fixed surface.
    pub fn first_plane_type(&self) -> (r: usize)
        requires
            self.wf(),
        ensures
            r == self@[22],
    {
        u8_be(self.buf.as_slice(), 22) as usize
    }

    /// Scale factor of the first fixed surface.
    pub fn first_plane_factor(&self) -> (r: isize)
        requires
            self.wf(),
        ensures
            r == sign_magnitude8(self@[23] as int),
    {
        i8_be(self.buf.as_slice(), 23) as isize
    }

    /// Scaled value of the first fixed surface.
    pub fn first_plane_value(&self) -> (r: isize)
        requires
            self.wf(),
        ensures
            r == sign_magnitude32(be_u32(self@, 24)),
    {
        i32_be(self.buf.as_slice(), 24) as isize
    }

    /// Type of the second fixed surface.
    pub fn second_plane_type(&self) -> (r: usize)
        requires
            self.wf(),
        ensures
            r == self@[28],
    {
        u8_be(self.buf.as_slice(), 28) as usize
    }

    /// Scale factor of the second fixed surface.
    pub fn second_plane_factor(&self) -> (r: isize)
        requires
            self.wf(),
        ensures
            r == sign_magnitude8(self@[29] as int),
    {
        i8_be(self.buf.as_slice(), 29) as isize
    }

    /// Scaled value of the second fixed surface.
    pub fn second_plane_value(&self) -> (r: isize)
        requires
            self.wf(),
        ensures
            r == sign_magnitude32(be_u32(self@, 30)),
    {
        i32_be(self.buf.as_slice(), 30) as isize
    }

    /// End of the overall time interval.
    pub fn end_time(&self) -> (r: GribDateTime)
        requires
            self.wf(),
        ensures
            r == datetime_of(self@, 34),
    {
        datetime_be(self.buf.as_slice(), 34)
    }

    /// Statistical process used over the time interval.
    pub fn statistics_type(&self) -> (r: usize)
        requires
            self.wf(),
        ensures
            r == self@[46],
    {
        u8_be(self.buf.as_slice(), 46) as usize
    }

    /// Length of the time range the statistical process covers, in
    /// seconds; nothing for an unrecognized time unit.
    pub fn statistics_time_span(&self) -> (r: Option<u64>)
        requires
            self.wf(),
        ensures
            r matches Some(x) ==> time_span_of(self@, 48) == Some(x as int),
            r is Some <==> time_span_of(self@, 48) is Some,
    {
        time_span_be(self.buf.as_slice(), 48)
    }

    /// The valid time of the data: the explicit end of the overall time
    /// interval, whatever the reference time.
    pub fn datetime(&self, reference: &GribDateTime) -> (r: Option<GribDateTime>)
        requires
            self.wf(),
        ensures
            r == Some(datetime_of(self@, 34)),
    {
        let _ = reference;
        Some(self.end_time())
    }

}

/// Template 4.50012: statistical product.
pub struct Template50012 {
    buf: Vec<u8>,
}

impl View for Template50012 {
    type V = Seq<u8>;

    closed spec fn view(&self) -> Seq<u8> {
        self.buf@
    }
}

impl Template50012 {
    /// The bytes this template's layout needs.
    pub open spec fn wf(&self) -> bool {
        self@.len() >= 53
    }

    /// Wraps a section's bytes; nothing for a buffer too short.
    pub fn create(buf: Vec<u8>) -> (r: Option<Self>)
        ensures
            r is Some <==> buf@.len() >= 53,
            r matches Some(t) ==> t@ == buf@,
    {
        if buf.len() >= 53 {
            Some(Self { buf })
        } else {
            None
        }
    }

    /// Category of the parameter.
    pub fn parameter_category(&self) -> (r: usize)
        requires
            self.wf(),
        ensures
            r == self@[9],
    {
        u8_be(self.buf.as_slice(), 9) as usize
    }

    /// Number of the parameter within its category.
    pub fn parameter_number(&self) -> (r: usize)
        requires
            self.wf(),
        ensures
            r == self@[10],
    {
        u8_be(self.buf.as_slice(), 10) as usize
    }

    /// Type of the generating process.
    pub fn generating_type(&self) -> (r: usize)
        requires
            self.wf(),
        ensures
            r == self@[11],
    {
        u8_be(self.buf.as_slice(), 11) as usize
    }

    /// Background generating process identifier.
    pub fn background_generating_identifier(&self) -> (r: usize)
        requires
            self.wf(),
        ensures
            r == self@[12],
    {
        u8_be(self.buf.as_slice(), 12) as usize
    }

    /// Hours after the reference time of the data cut-off.
    pub fn cut_off_hours(&self) -> (r: usize)
        requires
            self.wf(),
        ensures
            r == be_u16(self@, 14),
    {
        u16_be(self.buf.as_slice(), 14) as usize
    }

    /// Minutes after the reference time of the data cut-off.
    pub fn cut_off_minutes(&self) -> (r: usize)
        requires
            self.wf(),
        ensures
            r == self@[16],
    {
        u8_be(self.buf.as_slice(), 16) as usize
    }

    /// Forecast offset from the reference time, in seconds; nothing for
    /// an unrecognized time unit.
    pub fn forecast_time_span(&self) -> (r: Option<u64>)
        requires
            self.wf(),
        ensures
            r matches Some(x) ==> time_span_of(self@, 17) == Some(x as int),
            r is Some <==> time_span_of(self@, 17) is Some,
    {
        time_span_be(self.buf.as_slice(), 17)
    }

    /// Type of the first fixed surface.
    pub fn first_plane_type(&self) -> (r: usize)
        requires
            self.wf(),
        ensures
            r == self@[22],
    {
        u8_be(self.buf.as_slice(), 22) as usize
    }

    /// Scale factor of the first fixed surface.
    pub fn first_plane_factor(&self) -> (r: isize)
        requires
            self.wf(),
        ensures
            r == sign_magnitude8(self@[23] as int),
    {
        i8_be(self.buf.as_slice(), 23) as isize
    }

    /// Scaled value of the first fixed surface.
    pub fn first_plane_value(&self) -> (r: isize)
        requires
            self.wf(),
        ensures
            r == sign_magnitude32(be_u32(self@, 24)),
    {
        i32_be(self.buf.as_slice(), 24) as isize
    }

    /// Type of the second fixed surface.
    pub fn second_plane_type(&self) -> (r: usize)
        requires
            self.wf(),
        ensures
            r == self@[28],
    {
        u8_be(self.buf.as_slice(), 28) as usize
    }

    /// Scale factor of the second fixed surface.
    pub fn second_plane_factor(&self) -> (r: isize)
        requires
            self.wf(),
        ensures
            r == sign_magnitude8(self@[29] as int),
    {
        i8_be(self.buf.as_slice(), 29) as isize
    }

    /// Scaled value of the second fixed surface.
    pub fn second_plane_value(&self) -> (r: isize)
        requires
            self.wf(),
        ensures
            r == sign_magnitude32(be_u32(self@, 30)),
    {
        i32_be(self.buf.as_slice(), 30) as isize
    }

    /// End of the overall time interval.
    pub fn end_time(&self) -> (r: GribDateTime)
        requires
            self.wf(),
        ensures
            r == datetime_of(self@, 34),
    {
        datetime_be(self.buf.as_slice(), 34)
    }

    /// Statistical process used over the time interval.
    pub fn statistics_type(&self) -> (r: usize)
        requires
            self.wf(),
        ensures
            r == self@[46],
    {
        u8_be(self.buf.as_slice(), 46) as usize
    }

    /// Length of the time range the statistical process covers, in
    /// seconds; nothing for an unrecognized time unit.
    pub fn statistics_time_span(&self) -> (r: Option<u64>)
        requires
            self.wf(),
        ensures
            r matches Some(x) ==> time_span_of(self@, 48) == Some(x as int),
            r is Some <==> time_span_of(self@, 48) is Some,
    {
        time_span_be(self.buf.as_slice(), 48)
    }

    /// The valid time of the data: the explicit end of the overall time
    /// interval, whatever the reference time.
    pub fn datetime(&self, reference: &GribDateTime) -> (r: Option<GribDateTime>)
        requires
            self.wf(),
        ensures
            r == Some(datetime_of(self@, 34)),
    {
        let _ = reference;
        Some(self.end_time())
    }

}

/// The product-definition template a section selects, by its number.
pub enum TemplateNumber {
    T0(Template0),
    T1(Template1),
    T8(Template8),
    T9(Template9),
    T11(Template11),
    T50000(Template50000),
    T50008(Template50008),
    T50009(Template50009),
    T50011(Template50011),
    T50012(Template50012),
}

impl TemplateNumber {
    /// Well-formedness of whichever template this is.
    pub open spec fn wf(&self) -> bool {
        match self {
            TemplateNumber::T0(t) => t.wf(),
            TemplateNumber::T1(t) => t.wf(),
            TemplateNumber::T8(t) => t.wf(),
            TemplateNumber::T9(t) => t.wf(),
            TemplateNumber::T11(t) => t.wf(),
            TemplateNumber::T50000(t) => t.wf(),
            TemplateNumber::T50008(t) => t.wf(),
            TemplateNumber::T50009(t) => t.wf(),
            TemplateNumber::T50011(t) => t.wf(),
            TemplateNumber::T50012(t) => t.wf(),
        }
    }

    /// The underlying section bytes.
    pub open spec fn bytes(&self) -> Seq<u8> {
        match self {
            TemplateNumber::T0(t) => t@,
            TemplateNumber::T1(t) => t@,
            TemplateNumber::T8(t) => t@,
            TemplateNumber::T9(t) => t@,
            TemplateNumber::T11(t) => t@,
            TemplateNumber::T50000(t) => t@,
            TemplateNumber::T50008(t) => t@,
            TemplateNumber::T50009(t) => t@,
            TemplateNumber::T50011(t) => t@,
            TemplateNumber::T50012(t) => t@,
        }
    }

    /// The template number of this variant.
    pub open spec fn number(&self) -> int {
        match self {
            TemplateNumber::T0(t) => 0,
            TemplateNumber::T1(t) => 1,
            TemplateNumber::T8(t) => 8,
            TemplateNumber::T9(t) => 9,
            TemplateNumber::T11(t) => 11,
            TemplateNumber::T50000(t) => 50000,
            TemplateNumber::T50008(t) => 50008,
            TemplateNumber::T50009(t) => 50009,
            TemplateNumber::T50011(t) => 50011,
            TemplateNumber::T50012(t) => 50012,
        }
    }

    /// Whether this template's valid time is an explicit interval end.
    pub open spec fn is_statistical(&self) -> bool {
        match self {
            TemplateNumber::T0(t) => false,
            TemplateNumber::T1(t) => false,
            TemplateNumber::T8(t) => true,
            TemplateNumber::T9(t) => true,
            TemplateNumber::T11(t) => true,
            TemplateNumber::T50000(t) => false,
            TemplateNumber::T50008(t) => true,
            TemplateNumber::T50009(t) => true,
            TemplateNumber::T50011(t) => true,
            TemplateNumber::T50012(t) => true,
        }
    }

    /// Offset of the interval-end timestamp of a statistical template.
    pub open spec fn end_offset(&self) -> int {
        match self {
            TemplateNumber::T0(t) => 0,
            TemplateNumber::T1(t) => 0,
            TemplateNumber::T8(t) => 34,
            TemplateNumber::T9(t) => 47,
            TemplateNumber::T11(t) => 37,
            TemplateNumber::T50000(t) => 0,
            TemplateNumber::T50008(t) => 34,
            TemplateNumber::T50009(t) => 34,
            TemplateNumber::T50011(t) => 34,
            TemplateNumber::T50012(t) => 34,
        }
    }

    /// Category of the parameter.
    pub fn parameter_category(&self) -> (r: usize)
        requires
            self.wf(),
        ensures
            r == self.bytes()[9],
    {
        match self {
            TemplateNumber::T0(t) => t.parameter_category(),
            TemplateNumber::T1(t) => t.parameter_category(),
            TemplateNumber::T8(t) => t.parameter_category(),
            TemplateNumber::T9(t) => t.parameter_category(),
            TemplateNumber::T11(t) => t.parameter_category(),
            TemplateNumber::T50000(t) => t.parameter_category(),
            TemplateNumber::T50008(t) => t.parameter_category(),
            TemplateNumber::T50009(t) => t.parameter_category(),
            TemplateNumber::T50011(t) => t.parameter_category(),
            TemplateNumber::T50012(t) => t.parameter_category(),
        }
    }

    /// Number of the parameter within its category.
    pub fn parameter_number(&self) -> (r: usize)
        requires
            self.wf(),
        ensures
            r == self.bytes()[10],
    {
        match self {
            TemplateNumber::T0(t) => t.parameter_number(),
            TemplateNumber::T1(t) => t.parameter_number(),
            TemplateNumber::T8(t) => t.parameter_number(),
            TemplateNumber::T9(t) => t.parameter_number(),
            TemplateNumber::T11(t) => t.parameter_number(),
            TemplateNumber::T50000(t) => t.parameter_number(),
            TemplateNumber::T50008(t) => t.parameter_number(),
            TemplateNumber::T50009(t) => t.parameter_number(),
            TemplateNumber::T50011(t) => t.parameter_number(),
            TemplateNumber::T50012(t) => t.parameter_number(),
        }
    }

    /// Type of the first fixed surface.
    pub fn first_plane_type(&self) -> (r: Option<usize>)
        requires
            self.wf(),
        ensures
            r matches Some(x) ==> x == self.bytes()[22],
            r is Some,
    {
        match self {
            TemplateNumber::T0(t) => Some(t.first_plane_type()),
            TemplateNumber::T1(t) => Some(t.first_plane_type()),
            TemplateNumber::T8(t) => Some(t.first_plane_type()),
            TemplateNumber::T9(t) => Some(t.first_plane_type()),
            TemplateNumber::T11(t) => Some(t.first_plane_type()),
            TemplateNumber::T50000(t) => Some(t.first_plane_type()),
            TemplateNumber::T50008(t) => Some(t.first_plane_type()),
            TemplateNumber::T50009(t) => Some(t.first_plane_type()),
            TemplateNumber::T50011(t) => Some(t.first_plane_type()),
            TemplateNumber::T50012(t) => Some(t.first_plane_type()),
        }
    }

    /// Scale factor of the first fixed surface.
    pub fn first_plane_factor(&self) -> (r: Option<isize>)
        requires
            self.wf(),
        ensures
            r matches Some(x) ==> x == sign_magnitude8(self.bytes()[23] as int),
            r is Some,
    {
        match self {
            TemplateNumber::T0(t) => Some(t.first_plane_factor()),
            TemplateNumber::T1(t) => Some(t.first_plane_factor()),
            TemplateNumber::T8(t) => Some(t.first_plane_factor()),
            TemplateNumber::T9(t) => Some(t.first_plane_factor()),
            TemplateNumber::T11(t) => Some(t.first_plane_factor()),
            TemplateNumber::T50000(t) => Some(t.first_plane_factor()),
            TemplateNumber::T50008(t) => Some(t.first_plane_factor()),
            TemplateNumber::T50009(t) => Some(t.first_plane_factor()),
            TemplateNumber::T50011(t) => Some(t.first_plane_factor()),
            TemplateNumber::T50012(t) => Some(t.first_plane_factor()),
        }
    }

    /// Scaled value of the first fixed surface.
    pub fn first_plane_value(&self) -> (r: Option<isize>)
        requires
            self.wf(),
        ensures
            r matches Some(x) ==> x == sign_magnitude32(be_u32(self.bytes(), 24)),
            r is Some,
    {
        match self {
            TemplateNumber::T0(t) => Some(t.first_plane_value()),
            TemplateNumber::T1(t) => Some(t.first_plane_value()),
            TemplateNumber::T8(t) => Some(t.first_plane_value()),
            TemplateNumber::T9(t) => Some(t.first_plane_value()),
            TemplateNumber::T11(t) => Some(t.first_plane_value()),
            TemplateNumber::T50000(t) => Some(t.first_plane_value()),
            TemplateNumber::T50008(t) => Some(t.first_plane_value()),
            TemplateNumber::T50009(t) => Some(t.first_plane_value()),
            TemplateNumber::T50011(t) => Some(t.first_plane_value()),
            TemplateNumber::T50012(t) => Some(t.first_plane_value()),
        }
    }

    /// The valid time of the data: for a statistical template the
    /// explicit end of its interval, otherwise the reference time moved
    /// forward by the forecast offset.
    pub fn datetime(&self, reference: &GribDateTime) -> (r: Option<GribDateTime>)
        requires
            self.wf(),
        ensures
            self.is_statistical() ==> r == Some(datetime_of(self.bytes(), self.end_offset())),
            !self.is_statistical() ==> (r is Some ==> time_span_of(self.bytes(), 17) is Some),
            !self.is_statistical() ==> (r matches Some(x) ==> x == shifted(
                *reference,
                time_span_of(self.bytes(), 17).unwrap(),
            )),
            (!self.is_statistical() && time_span_of(self.bytes(), 17) is Some && valid_datetime(
                *reference,
            ) && reference.year <= 9999 && time_span_of(self.bytes(), 17).unwrap()
                <= u32::MAX) ==> r is Some,
    {
        match self {
            TemplateNumber::T0(t) => t.datetime(reference),
            TemplateNumber::T1(t) => t.datetime(reference),
            TemplateNumber::T8(t) => t.datetime(reference),
            TemplateNumber::T9(t) => t.datetime(reference),
            TemplateNumber::T11(t) => t.datetime(reference),
            TemplateNumber::T50000(t) => t.datetime(reference),
            TemplateNumber::T50008(t) => t.datetime(reference),
            TemplateNumber::T50009(t) => t.datetime(reference),
            TemplateNumber::T50011(t) => t.datetime(reference),
            TemplateNumber::T50012(t) => t.datetime(reference),
        }
    }

}

} // verus!
