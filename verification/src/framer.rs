//! The section framer: walks a buffer that holds one or more concatenated
//! messages, recognizes the start and end markers and the length-prefixed
//! sections between them, keeps the most recent instance of each section
//! in an accumulator, and emits a snapshot of the accumulator every time a
//! data section is consumed. Sections persist across emissions until
//! overwritten, so several parameter records can share one grid
//! definition.

use crate::bytes::{be_u32, u32_be, u8_be};
use crate::section0::Section0;
use crate::section1::Section1;
use crate::section2::Section2;
use crate::section3::Section3;
use crate::section4::Section4;
use crate::section5::Section5;
use crate::section6::Section6;
use crate::section7::Section7;
use crate::sectionset::{small_view, SectionSet, SectionSetView, SectionSets};
use vstd::prelude::*;
use vstd::slice::{slice_subrange, slice_to_vec};

verus! {

/// Whether the four bytes at `pos` spell the message start marker.
pub open spec fn is_grib_at(b: Seq<u8>, pos: int) -> bool {
    &&& b[pos] == 0x47u8
    &&& b[pos + 1] == 0x52u8
    &&& b[pos + 2] == 0x49u8
    &&& b[pos + 3] == 0x42u8
}

/// Whether the four bytes at `pos` spell the message end marker.
pub open spec fn is_7777_at(b: Seq<u8>, pos: int) -> bool {
    &&& b[pos] == 0x37u8
    &&& b[pos + 1] == 0x37u8
    &&& b[pos + 2] == 0x37u8
    &&& b[pos + 3] == 0x37u8
}

/// The accumulator before any section has been seen.
pub open spec fn empty_view() -> SectionSetView {
    SectionSetView {
        section0: None,
        section1: None,
        section2: None,
        section3: None,
        section4: None,
        section5: None,
        section6: None,
        section7: None,
    }
}

/// One accumulator update for a regular section numbered `num` with bytes
/// `sb`. A section too short for its own fields unregisters its slot; a
/// bitmap section with reuse indicator 254 (or a reserved indicator)
/// leaves the previously captured bitmap untouched; a data section needs
/// the data-representation section already in force.
pub open spec fn step_view(cur: SectionSetView, num: int, sb: Seq<u8>) -> SectionSetView {
    if num == 1 {
        SectionSetView {
            section1: if sb.len() >= 19 {
                Some(sb)
            } else {
                None
            },
            ..cur
        }
    } else if num == 2 {
        SectionSetView {
            section2: if sb.len() >= 5 {
                Some(sb)
            } else {
                None
            },
            ..cur
        }
    } else if num == 3 {
        SectionSetView {
            section3: if sb.len() >= 71 {
                Some(sb)
            } else {
                None
            },
            ..cur
        }
    } else if num == 4 {
        SectionSetView {
            section4: if sb.len() >= 9 {
                Some(sb)
            } else {
                None
            },
            ..cur
        }
    } else if num == 5 {
        SectionSetView {
            section5: if sb.len() >= 11 {
                Some(sb)
            } else {
                None
            },
            ..cur
        }
    } else if num == 6 {
        if sb.len() < 6 {
            SectionSetView { section6: None, ..cur }
        } else if sb[5] == 0 || sb[5] == 255 {
            SectionSetView { section6: Some(sb), ..cur }
        } else {
            cur
        }
    } else if num == 7 {
        SectionSetView {
            section7: if cur.section5 is Some && sb.len() >= 5 {
                Some(sb)
            } else {
                None
            },
            ..cur
        }
    } else {
        cur
    }
}

/// The framer as a recursion over the buffer: at each position, a start
/// marker is a fixed 16-byte indicator section, an end marker a 4-byte
/// trailer, and anything else a length-prefixed section whose number is
/// its fifth byte. A snapshot of the accumulator is emitted after every
/// data section. The walk stops at the end of the buffer and on a section
/// that is truncated or shorter than its own header.
pub open spec fn scan(
    b: Seq<u8>,
    pos: int,
    cur: SectionSetView,
    out: Seq<SectionSetView>,
) -> Seq<SectionSetView>
    decreases b.len() - pos,
{
    if pos < 0 || pos + 4 > b.len() {
        out
    } else if is_grib_at(b, pos) {
        if pos + 16 > b.len() {
            out
        } else {
            scan(
                b,
                pos + 16,
                SectionSetView { section0: Some(b.subrange(pos, pos + 16)), ..cur },
                out,
            )
        }
    } else if is_7777_at(b, pos) {
        scan(b, pos + 4, cur, out)
    } else if pos + 5 > b.len() {
        out
    } else {
        let num = b[pos + 4] as int;
        let len = be_u32(b, pos);
        if len < 5 || pos + len > b.len() {
            out
        } else {
            let sb = b.subrange(pos, pos + len);
            let cur2 = step_view(cur, num, sb);
            let out2 = if num == 7 {
                out.push(cur2)
            } else {
                out
            };
            scan(b, pos + len, cur2, out2)
        }
    }
}

/// The leading sections persist across data groups: an accumulator step
/// for any section other than 1, 2 or 3 leaves those slots untouched.
/// Since `scan` emits a snapshot of the accumulator at every data
/// section, all section sets emitted for data groups that follow one
/// identification / local-use / grid-definition group carry that group's
/// very bytes, until a later occurrence overwrites them.
pub proof fn lemma_leading_sections_persist(cur: SectionSetView, num: int, sb: Seq<u8>)
    requires
        num != 1,
        num != 2,
        num != 3,
    ensures
        step_view(cur, num, sb).section1 == cur.section1,
        step_view(cur, num, sb).section2 == cur.section2,
        step_view(cur, num, sb).section3 == cur.section3,
{
}

/// Every present section's bytes fit inside a buffer of length `n`.
pub open spec fn sections_bounded(v: SectionSetView, n: int) -> bool {
    &&& (v.section0 matches Some(b) ==> b.len() <= n)
    &&& (v.section1 matches Some(b) ==> b.len() <= n)
    &&& (v.section2 matches Some(b) ==> b.len() <= n)
    &&& (v.section3 matches Some(b) ==> b.len() <= n)
    &&& (v.section4 matches Some(b) ==> b.len() <= n)
    &&& (v.section5 matches Some(b) ==> b.len() <= n)
    &&& (v.section6 matches Some(b) ==> b.len() <= n)
    &&& (v.section7 matches Some(b) ==> b.len() <= n)
}

/// Whether the four bytes spell the message start marker.
pub fn is_start_indicator(buf: &[u8]) -> (r: bool)
    requires
        buf@.len() == 4,
    ensures
        r == is_grib_at(buf@, 0),
{
    let b0 = u8_be(buf, 0);
    let b1 = u8_be(buf, 1);
    let b2 = u8_be(buf, 2);
    let b3 = u8_be(buf, 3);
    b0 == 0x47 && b1 == 0x52 && b2 == 0x49 && b3 == 0x42
}

/// Whether the four bytes spell the message end marker.
pub fn is_end_indicator(buf: &[u8]) -> (r: bool)
    requires
        buf@.len() == 4,
    ensures
        r == is_7777_at(buf@, 0),
{
    let b0 = u8_be(buf, 0);
    let b1 = u8_be(buf, 1);
    let b2 = u8_be(buf, 2);
    let b3 = u8_be(buf, 3);
    b0 == 0x37 && b1 == 0x37 && b2 == 0x37 && b3 == 0x37
}

/// Walks the whole buffer and returns the emitted section sets, in order.
pub fn parse(buf: &[u8]) -> (r: SectionSets)
    ensures
        r@ == scan(buf@, 0, empty_view(), Seq::empty()),
        r.all_wf(),
        forall|i: int|
            0 <= i < r@.len() ==> sections_bounded(#[trigger] r@[i], buf@.len() as int),
        8 * buf@.len() + 16 <= usize::MAX ==> forall|i: int|
            0 <= i < r@.len() ==> small_view(#[trigger] r@[i]),
{
    let n = buf.len();
    let mut cur = SectionSet::new();
    let mut sets = SectionSets::new();
    let mut pos: usize = 0;
    proof {
        assert(cur@ =~= empty_view());
        assert(sets@ =~= Seq::<SectionSetView>::empty());
    }
    while pos < n
        invariant_except_break
            n == buf@.len(),
            pos <= n,
            cur.wf(),
            sets.all_wf(),
            sections_bounded(cur@, n as int),
            forall|i: int|
                0 <= i < sets@.len() ==> sections_bounded(#[trigger] sets@[i], n as int),
            scan(buf@, 0, empty_view(), Seq::empty()) == scan(buf@, pos as int, cur@, sets@),
        ensures
            sets.all_wf(),
            forall|i: int|
                0 <= i < sets@.len() ==> sections_bounded(#[trigger] sets@[i], n as int),
            scan(buf@, 0, empty_view(), Seq::empty()) == sets@,
            n == buf@.len(),
        decreases n - pos,
    {
        let ghost pos0 = pos as int;
        let ghost cur0 = cur@;
        let ghost sets0 = sets@;
        if n - pos < 4 {
            proof {
                assert(scan(buf@, pos0, cur0, sets0) == sets0);
            }
            break ;
        }
        let head = slice_subrange(buf, pos, pos + 4);
        if is_start_indicator(head) {
            proof {
                assert(is_grib_at(buf@, pos0));
            }
            if n - pos < 16 {
                proof {
                    assert(scan(buf@, pos0, cur0, sets0) == sets0);
                }
                break ;
            }
            let sb = slice_to_vec(slice_subrange(buf, pos, pos + 16));
            cur.section0 = Section0::create(sb);
            pos = pos + 16;
            proof {
                assert(cur@ =~= SectionSetView {
                    section0: Some(buf@.subrange(pos0, pos0 + 16)),
                    ..cur0
                });
                assert(scan(buf@, pos0, cur0, sets0) == scan(buf@, pos as int, cur@, sets@));
            }
        } else if is_end_indicator(head) {
            proof {
                assert(is_7777_at(buf@, pos0));
                assert(!is_grib_at(buf@, pos0));
            }
            pos = pos + 4;
            proof {
                assert(scan(buf@, pos0, cur0, sets0) == scan(buf@, pos as int, cur@, sets@));
            }
        } else {
            proof {
                assert(!is_grib_at(buf@, pos0));
                assert(!is_7777_at(buf@, pos0));
            }
            if n - pos < 5 {
                proof {
                    assert(scan(buf@, pos0, cur0, sets0) == sets0);
                }
                break ;
            }
            let num = u8_be(buf, pos + 4);
            let len = u32_be(buf, pos) as usize;
            if len < 5 || len > n - pos {
                proof {
                    assert(scan(buf@, pos0, cur0, sets0) == sets0);
                }
                break ;
            }
            let sb = slice_to_vec(slice_subrange(buf, pos, pos + len));
            let ghost sbv = buf@.subrange(pos0, pos0 + len as int);
            proof {
                assert(sb@ == sbv);
            }
            match num {
                1 => {
                    cur.section1 = Section1::create(sb);
                },
                2 => {
                    cur.section2 = Section2::create(sb);
                },
                3 => {
                    cur.section3 = Section3::create(sb);
                },
                4 => {
                    cur.section4 = Section4::create(sb);
                },
                5 => {
                    cur.section5 = Section5::create(sb);
                },
                6 => {
                    match Section6::create(sb) {
                        Some(s6) => {
                            let ind = s6.bit_map_indicator();
                            if ind == 0 || ind == 255 {
                                cur.section6 = Some(s6);
                            }
                        },
                        None => {
                            cur.section6 = None;
                        },
                    }
                },
                7 => {
                    cur.section7 = match &cur.section5 {
                        Some(s5) => Section7::create(sb, s5),
                        None => None,
                    };
                },
                _ => {},
            }
            proof {
                assert(cur@ =~= step_view(cur0, num as int, sbv));
            }
            if num == 7 {
                sets.push(cur.snapshot());
            }
            pos = pos + len;
            proof {
                assert(scan(buf@, pos0, cur0, sets0) == scan(buf@, pos as int, cur@, sets@));
            }
        }
    }
    proof {
        assert forall|i: int|
            0 <= i < sets@.len() && 8 * buf@.len() + 16 <= usize::MAX implies small_view(
            #[trigger] sets@[i],
        ) by {
            assert(sections_bounded(sets@[i], n as int));
        }
    }
    sets
}

} // verus!
