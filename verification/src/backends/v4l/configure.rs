//! The configuration queries' decision logic.
//!
//! A device enumerates its formats, for each format its frame sizes, and
//! for each discrete size its frame intervals. The caller performs those
//! queries and hands the answers over as plain values; building the
//! supported-configuration list out of them — skipping the stepwise
//! entries, inverting each interval into a rate — happens here. The same
//! goes for reading the active configuration back after a query or a
//! write.

use vstd::prelude::*;

use crate::backends::v4l::framerate::V4l2StreamParm;
use crate::config::framerate::reduce;
use crate::config::{Format, Framerate, SpecificResolution, VideoCaptureImageConfiguration};
use crate::error::VideoCaptureConfigError;

verus! {

/// Wraps a failed format or stream-parameter query.
pub fn format_query_failure(source_str: &String, err_msg: String) -> (r: VideoCaptureConfigError)
    ensures
        r matches VideoCaptureConfigError::CouldntGetFormat { source, err_msg: m } && source@
            == source_str@ && m@ == err_msg@,
{
    VideoCaptureConfigError::CouldntGetFormat { source: source_str.clone(), err_msg }
}

/// Wraps a device that failed to enumerate its own configurations.
pub fn enumeration_failure(source_str: &String, err_msg: String) -> (r: VideoCaptureConfigError)
    ensures
        r matches VideoCaptureConfigError::DeviceDoesntListConfigurations {
            source,
            err_msg: m,
        } && source@ == source_str@ && m@ == err_msg@,
{
    VideoCaptureConfigError::DeviceDoesntListConfigurations {
        source: source_str.clone(),
        err_msg,
    }
}

/// Wraps a refused configuration write.
pub fn configuration_write_failure(source_str: &String, err_msg: String) -> (r:
    VideoCaptureConfigError)
    ensures
        r matches VideoCaptureConfigError::PropertyWriteFailure { source, err_msg: m }
            && source@ == source_str@ && m@ == err_msg@,
{
    VideoCaptureConfigError::PropertyWriteFailure { source: source_str.clone(), err_msg }
}

/// One frame size a device offers for a format.
#[derive(Clone, Copy, Debug)]
pub enum FrameSizeInfo {
    /// A concrete width and height.
    Discrete { width: u32, height: u32 },
    /// A stepwise range; these are not supported and are skipped.
    Stepwise,
}

/// One frame interval a device offers at a format and size.
#[derive(Clone, Copy, Debug)]
pub enum FrameIntervalInfo {
    /// A concrete interval fraction: seconds per frame.
    Discrete { numerator: u32, denominator: u32 },
    /// A stepwise range; these are not supported and are skipped.
    Stepwise,
}

/// The intervals a device offers at one frame size.
#[derive(Debug)]
pub struct SizeModes {
    /// The frame size itself.
    pub size: FrameSizeInfo,
    /// The frame intervals enumerated at that size.
    pub intervals: Vec<FrameIntervalInfo>,
}

/// The sizes and intervals a device offers for one format.
#[derive(Debug)]
pub struct FormatModes {
    /// The format's FourCC tag.
    pub fourcc: [u8; 4],
    /// The frame sizes enumerated for the format.
    pub sizes: Vec<SizeModes>,
}

/// One fully discrete capture mode: the specification-level value of one
/// entry of the supported-configuration list.
pub struct DiscreteMode {
    pub fourcc: Seq<u8>,
    pub width: u32,
    pub height: u32,
    pub numerator: u32,
    pub denominator: u32,
}

/// The discrete modes among one size's intervals, in order.
pub open spec fn modes_of_intervals(
    fourcc: Seq<u8>,
    width: u32,
    height: u32,
    ivs: Seq<FrameIntervalInfo>,
) -> Seq<DiscreteMode>
    decreases ivs.len(),
{
    if ivs.len() == 0 {
        Seq::empty()
    } else {
        let rest = modes_of_intervals(fourcc, width, height, ivs.drop_first());
        match ivs[0] {
            FrameIntervalInfo::Discrete { numerator, denominator } => seq![
                DiscreteMode { fourcc, width, height, numerator, denominator },
            ] + rest,
            FrameIntervalInfo::Stepwise => rest,
        }
    }
}

/// The discrete modes among one format's sizes, in order.
pub open spec fn modes_of_sizes(fourcc: Seq<u8>, sizes: Seq<SizeModes>) -> Seq<DiscreteMode>
    decreases sizes.len(),
{
    if sizes.len() == 0 {
        Seq::empty()
    } else {
        let head = match sizes[0].size {
            FrameSizeInfo::Discrete { width, height } => modes_of_intervals(
                fourcc,
                width,
                height,
                sizes[0].intervals@,
            ),
            FrameSizeInfo::Stepwise => Seq::empty(),
        };
        head + modes_of_sizes(fourcc, sizes.drop_first())
    }
}

/// All discrete modes a device enumerated, in enumeration order.
pub open spec fn modes_of_formats(formats: Seq<FormatModes>) -> Seq<DiscreteMode>
    decreases formats.len(),
{
    if formats.len() == 0 {
        Seq::empty()
    } else {
        modes_of_sizes(formats[0].fourcc@, formats[0].sizes@) + modes_of_formats(
            formats.drop_first(),
        )
    }
}

/// How a configuration entry realizes a discrete mode: same format and
/// resolution, and a frame rate that is exactly the inverse of the
/// mode's interval, in lowest terms.
pub open spec fn realizes_mode(c: VideoCaptureImageConfiguration, m: DiscreteMode) -> bool {
    c.format@ == m.fourcc && c.resolution.width == m.width && c.resolution.height == m.height
        && (c.framerate.spec_den() as nat, c.framerate.spec_num() as nat) == reduce(
        m.numerator as nat,
        m.denominator as nat,
    )
}

/// Builds the supported-configuration list from what the device
/// enumerated: one entry per fully discrete format, size and interval
/// triple, in enumeration order, with every stepwise size or interval
/// skipped.
pub fn supported_configurations_from(formats: &Vec<FormatModes>) -> (r: Vec<
    VideoCaptureImageConfiguration,
>)
    ensures
        r@.len() == modes_of_formats(formats@).len(),
        forall|t: int|
            0 <= t < r@.len() ==> realizes_mode(#[trigger] r@[t], modes_of_formats(formats@)[t]),
{
    let ghost all = modes_of_formats(formats@);
    let mut out: Vec<VideoCaptureImageConfiguration> = Vec::new();
    proof {
        assert(formats@.subrange(0, formats@.len() as int) =~= formats@);
        assert(all.subrange(0, all.len() as int) =~= all);
    }
    let mut i: usize = 0;
    while i < formats.len()
        invariant
            0 <= i <= formats@.len(),
            all == modes_of_formats(formats@),
            out@.len() <= all.len(),
            forall|t: int| 0 <= t < out@.len() ==> realizes_mode(#[trigger] out@[t], all[t]),
            all.subrange(out@.len() as int, all.len() as int) == modes_of_formats(
                formats@.subrange(i as int, formats@.len() as int),
            ),
        decreases formats@.len() - i,
    {
        let ghost fsuffix = formats@.subrange(i as int, formats@.len() as int);
        proof {
            assert(fsuffix[0] == formats@[i as int]);
            assert(fsuffix.drop_first() =~= formats@.subrange(
                i as int + 1,
                formats@.len() as int,
            ));
        }
        let fourcc = formats[i].fourcc;
        let ghost sizes_full = formats@[i as int].sizes@;
        proof {
            assert(sizes_full.subrange(0, sizes_full.len() as int) =~= sizes_full);
        }
        let mut j: usize = 0;
        while j < formats[i].sizes.len()
            invariant
                0 <= i < formats@.len(),
                0 <= j <= sizes_full.len(),
                all == modes_of_formats(formats@),
                fourcc == formats@[i as int].fourcc,
                sizes_full == formats@[i as int].sizes@,
                out@.len() <= all.len(),
                forall|t: int| 0 <= t < out@.len() ==> realizes_mode(#[trigger] out@[t], all[t]),
                all.subrange(out@.len() as int, all.len() as int) == modes_of_sizes(
                    fourcc@,
                    sizes_full.subrange(j as int, sizes_full.len() as int),
                ) + modes_of_formats(formats@.subrange(i as int + 1, formats@.len() as int)),
            decreases sizes_full.len() - j,
        {
            let ghost ssuffix = sizes_full.subrange(j as int, sizes_full.len() as int);
            proof {
                assert(ssuffix[0] == sizes_full[j as int]);
                assert(ssuffix.drop_first() =~= sizes_full.subrange(
                    j as int + 1,
                    sizes_full.len() as int,
                ));
            }
            match formats[i].sizes[j].size {
                FrameSizeInfo::Stepwise => {
                    proof {
                        assert(modes_of_sizes(fourcc@, ssuffix) == Seq::<
                            DiscreteMode,
                        >::empty() + modes_of_sizes(fourcc@, ssuffix.drop_first()));
                        assert(Seq::<DiscreteMode>::empty() + modes_of_sizes(
                            fourcc@,
                            ssuffix.drop_first(),
                        ) =~= modes_of_sizes(fourcc@, ssuffix.drop_first()));
                    }
                },
                FrameSizeInfo::Discrete { width, height } => {
                    let ghost ivs_full = sizes_full[j as int].intervals@;
                    proof {
                        assert(ivs_full.subrange(0, ivs_full.len() as int) =~= ivs_full);
                    }
                    let mut k: usize = 0;
                    while k < formats[i].sizes[j].intervals.len()
                        invariant
                            0 <= i < formats@.len(),
                            0 <= j < sizes_full.len(),
                            0 <= k <= ivs_full.len(),
                            all == modes_of_formats(formats@),
                            fourcc == formats@[i as int].fourcc,
                            sizes_full == formats@[i as int].sizes@,
                            sizes_full[j as int].size == (FrameSizeInfo::Discrete {
                                width,
                                height,
                            }),
                            ivs_full == sizes_full[j as int].intervals@,
                            out@.len() <= all.len(),
                            forall|t: int|
                                0 <= t < out@.len() ==> realizes_mode(
                                    #[trigger] out@[t],
                                    all[t],
                                ),
                            all.subrange(out@.len() as int, all.len() as int)
                                == modes_of_intervals(
                                fourcc@,
                                width,
                                height,
                                ivs_full.subrange(k as int, ivs_full.len() as int),
                            ) + modes_of_sizes(
                                fourcc@,
                                sizes_full.subrange(j as int + 1, sizes_full.len() as int),
                            ) + modes_of_formats(
                                formats@.subrange(i as int + 1, formats@.len() as int),
                            ),
                        decreases ivs_full.len() - k,
                    {
                        let ghost isuffix = ivs_full.subrange(k as int, ivs_full.len() as int);
                        proof {
                            assert(isuffix[0] == ivs_full[k as int]);
                            assert(isuffix.drop_first() =~= ivs_full.subrange(
                                k as int + 1,
                                ivs_full.len() as int,
                            ));
                        }
                        match formats[i].sizes[j].intervals[k] {
                            FrameIntervalInfo::Stepwise => {
                            },
                            FrameIntervalInfo::Discrete { numerator, denominator } => {
                                let rate = Framerate::new(
                                    numerator as u64,
                                    denominator as u64,
                                ).recip();
                                let ghost old_out = out@;
                                out.push(
                                    VideoCaptureImageConfiguration {
                                        format: Format::new(fourcc),
                                        resolution: SpecificResolution::new(width, height),
                                        framerate: rate,
                                    },
                                );
                                proof {
                                    let m = DiscreteMode {
                                        fourcc: fourcc@,
                                        width,
                                        height,
                                        numerator,
                                        denominator,
                                    };
                                    let ipart = modes_of_intervals(
                                        fourcc@,
                                        width,
                                        height,
                                        isuffix.drop_first(),
                                    );
                                    let spart = modes_of_sizes(
                                        fourcc@,
                                        sizes_full.subrange(
                                            j as int + 1,
                                            sizes_full.len() as int,
                                        ),
                                    );
                                    let fpart = modes_of_formats(
                                        formats@.subrange(i as int + 1, formats@.len() as int),
                                    );
                                    let rem = all.subrange(
                                        old_out.len() as int,
                                        all.len() as int,
                                    );
                                    assert(isuffix[0] == (FrameIntervalInfo::Discrete {
                                        numerator,
                                        denominator,
                                    }));
                                    assert(modes_of_intervals(fourcc@, width, height, isuffix)
                                        == seq![m] + ipart);
                                    assert(rem == (seq![m] + ipart) + spart + fpart);
                                    assert(rem[0] == m);
                                    assert(rem.len() == all.len() - old_out.len());
                                    assert(old_out.len() < all.len());
                                    assert(all.subrange(
                                        old_out.len() as int,
                                        all.len() as int,
                                    )[0] == all[old_out.len() as int]);
                                    assert(all[old_out.len() as int] == rem[0]);
                                    assert(out@[old_out.len() as int].format@ == m.fourcc);
                                    assert(realizes_mode(out@[old_out.len() as int], m));
                                    assert(rem.drop_first() =~= all.subrange(
                                        out@.len() as int,
                                        all.len() as int,
                                    ));
                                    assert(rem.drop_first() =~= ipart + spart + fpart);
                                }
                            },
                        }
                        k = k + 1;
                    }
                    proof {
                        assert(ivs_full.subrange(k as int, ivs_full.len() as int).len() == 0);
                        assert(modes_of_intervals(
                            fourcc@,
                            width,
                            height,
                            ivs_full.subrange(k as int, ivs_full.len() as int),
                        ) =~= Seq::<DiscreteMode>::empty());
                        assert(Seq::<DiscreteMode>::empty() + modes_of_sizes(
                            fourcc@,
                            sizes_full.subrange(j as int + 1, sizes_full.len() as int),
                        ) =~= modes_of_sizes(
                            fourcc@,
                            sizes_full.subrange(j as int + 1, sizes_full.len() as int),
                        ));
                    }
                },
            }
            j = j + 1;
        }
        proof {
            assert(sizes_full.subrange(j as int, sizes_full.len() as int).len() == 0);
            assert(modes_of_sizes(
                fourcc@,
                sizes_full.subrange(j as int, sizes_full.len() as int),
            ) =~= Seq::<DiscreteMode>::empty());
            assert(Seq::<DiscreteMode>::empty() + modes_of_formats(
                formats@.subrange(i as int + 1, formats@.len() as int),
            ) =~= modes_of_formats(formats@.subrange(i as int + 1, formats@.len() as int)));
        }
        i = i + 1;
    }
    proof {
        assert(formats@.subrange(i as int, formats@.len() as int).len() == 0);
        assert(all.subrange(out@.len() as int, all.len() as int).len() == 0);
        assert(out@.len() == all.len());
    }
    out
}

/// Assembles the device's active configuration from what a format query
/// and a stream-parameter query returned.
pub fn image_configuration_from(
    fourcc: [u8; 4],
    width: u32,
    height: u32,
    parm: &V4l2StreamParm,
) -> (r: VideoCaptureImageConfiguration)
    ensures
        r.format@ == fourcc@,
        r.resolution.width == width,
        r.resolution.height == height,
        (r.framerate.spec_den() as nat, r.framerate.spec_num() as nat) == reduce(
            parm.spec_time_per_frame().0 as nat,
            parm.spec_time_per_frame().1 as nat,
        ),
{
    VideoCaptureImageConfiguration {
        format: Format::new(fourcc),
        resolution: SpecificResolution::new(width, height),
        framerate: parm.get_frame_rate(),
    }
}

} // verus!
