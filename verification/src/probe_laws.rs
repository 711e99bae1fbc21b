//! Which answer of the driver makes which part of a device's report: laws on the questions
//! and answers of a probe.

use vstd::prelude::*;
use crate::device::reply_error;
use crate::driver::{is_run_of, leads_on_by, Call, Reply, Step};
use crate::engine::{
    asks_from, every_report_is_complete, fresh, lifts, EngineInfo, EngineReport, EngineStage, Limit,
    ProbeDevice, ProbeStage, Probed,
};
use crate::report::{
    codec_name, codec_names_differ, lemma_row_of, offers, rows_view, text_view, texts_view,
    version_text, CapsView,
};
use crate::sys::{
    Guid, NVENCAPI_VERSION, NV_ENCODE_API_FUNCTION_LIST_VER, NV_ENC_CAPS_PARAM_VER,
    NV_ENC_OPEN_ENCODE_SESSION_EX_PARAMS_VER,
};
use crate::text::nat_text;

verus! {

/// The codecs of a report in their order, each with the pipeline's name for it and the
/// decode engine's number.
pub open spec fn known(j: int) -> (Seq<char>, int) {
    if j == 0 {
        ("h264"@, 4)
    } else if j == 1 {
        ("hevc"@, 8)
    } else if j == 2 {
        ("av1"@, 11)
    } else if j == 3 {
        ("vp9"@, 10)
    } else if j == 4 {
        ("vp8"@, 9)
    } else {
        ("mpeg2video"@, 1)
    }
}

/// Whether an identifier is the encode engine's for codec `j` of a report: H.264, HEVC and
/// AV1 have one.
pub open spec fn names_codec(g: Guid, j: int) -> bool {
    ||| j == 0 && g.data1 == 0x6bc82762 && g.data2 == 0x4e63 && g.data3 == 0x4ca4 && g.data4@
        =~= seq![0xaau8, 0x85u8, 0x1eu8, 0x50u8, 0xf3u8, 0x21u8, 0xf6u8, 0xbfu8]
    ||| j == 1 && g.data1 == 0x790cdc88 && g.data2 == 0x4522 && g.data3 == 0x4d7b && g.data4@
        =~= seq![0x94u8, 0x25u8, 0xbdu8, 0xa9u8, 0x97u8, 0x5fu8, 0x76u8, 0x03u8]
    ||| j == 2 && g.data1 == 0x0a352289 && g.data2 == 0x0aa7 && g.data3 == 0x4759 && g.data4@
        =~= seq![0x86u8, 0x2du8, 0x5du8, 0x15u8, 0xcdu8, 0x16u8, 0xd2u8, 0x54u8]
}

/// Whether a call asks what the decode engine makes of streams of a codec with subsampled
/// chroma and the given bit depth.
pub open spec fn asks_decode(call: Call, number: int, depth: int) -> bool {
    &&& call matches Call::CuvidGetDecoderCaps { caps }
    &&& caps.e_codec_type == number
    &&& caps.e_chroma_format == 1
    &&& caps.n_bit_depth_minus_8 + 8 == depth
}

/// Whether the decode engine's answer is that it is supported.
pub open spec fn says_yes(reply: Reply) -> bool {
    reply.load_error is None && reply.status == 0 && reply.caps.b_is_supported != 0
}

/// Whether a call asks for a capability of the encode engine, by its number, for codec `j`.
pub open spec fn asks_encode(call: Call, j: int, number: int) -> bool {
    &&& call matches Call::NvEncGetEncodeCaps { guid, param, .. }
    &&& names_codec(guid, j)
    &&& param.version == NV_ENC_CAPS_PARAM_VER
    &&& param.caps_to_query == number
}

/// The rows after a step.
pub open spec fn rows_after(step: Step<ProbeDevice, Probed>) -> Seq<CapsView> {
    match step {
        Step::Call(_, next) => next.found@.rows,
        Step::Done(p) => p.info@.codecs,
    }
}

/// Whether `after` is the larger of a limit and a number; a number that is not positive
/// says nothing.
pub open spec fn larger_of(before: Option<u32>, n: i32, after: Option<u32>) -> bool {
    &&& n <= 0 ==> after == before
    &&& n > 0 ==> {
        &&& after matches Some(a)
        &&& a >= n
        &&& before matches Some(b) ==> a >= b
        &&& a == n || before == Some(a)
    }
}

/// A number, unless it is zero.
pub open spec fn unless_zero(n: u32, r: Option<u32>) -> bool {
    &&& n == 0 <==> r is None
    &&& r matches Some(m) ==> m == n
}

/// Every question of a probe is about the device that is probed, on the context that was
/// made on it and on the session that was opened in that context.
pub proof fn questions_are_about_the_device(m: ProbeDevice, call: Call)
    requires
        m.valid(),
        m.awaits(call),
    ensures
        match call {
            Call::CuDeviceGetName { len, device } => m.stage is Naming && len == 256 && device
                == m.found.device,
            Call::CuDeviceTotalMem { device } => m.stage is Sizing && device == m.found.device,
            Call::CuDeviceGetAttribute { attribute, device } => {
                &&& device == m.found.device
                &&& m.stage is Major && attribute == 75 || m.stage is Minor && attribute == 76
            },
            Call::CuDriverGetVersion => m.stage is Version || m.stage is VersionOnly,
            Call::CuCtxCreate { flags, device } => m.stage is Entering && flags == 0 && device
                == m.found.device,
            Call::CuvidGetDecoderCaps { .. } => {
                let j = m.found.rows@.len() as int;
                &&& j < 6
                &&& m.stage is Decode8 && asks_decode(call, known(j).1, 8) || m.stage is Decode10
                    && asks_decode(call, known(j).1, 10)
            },
            Call::NvEncodeApiCreateInstance { version, once } => m.stage is Table && version
                == NV_ENCODE_API_FUNCTION_LIST_VER && !once,
            Call::NvEncOpenEncodeSessionEx { params } => {
                &&& m.stage is Opening
                &&& params.version == NV_ENC_OPEN_ENCODE_SESSION_EX_PARAMS_VER
                &&& params.device_type == 1
                &&& params.device == m.found.ctx
                &&& params.api_version == NVENCAPI_VERSION
            },
            Call::NvEncGetEncodeGuidCount { encoder } => m.stage matches ProbeStage::CountingGuids {
                encoder: e,
                ..
            } && encoder == e,
            Call::NvEncGetEncodeGuids { encoder, capacity } => {
                &&& m.stage matches ProbeStage::ListingGuids { encoder: e, capacity: c, .. }
                &&& encoder == e
                &&& capacity == c
            },
            Call::NvEncGetEncodeCaps { encoder, .. } => {
                &&& m.stage matches ProbeStage::Asking { session, codec, limit, .. }
                &&& encoder == session.encoder
                &&& asks_encode(
                    call,
                    codec as int,
                    match limit {
                        Limit::Width => 16,
                        Limit::Height => 17,
                        Limit::TenBit => 39,
                    },
                )
            },
            Call::NvEncDestroyEncoder { encoder } => m.stage matches ProbeStage::Shutting {
                encoder: e,
            } && encoder == e,
            Call::CuCtxDestroy { ctx } => m.stage is Leaving && ctx == m.found.ctx,
            _ => false,
        },
{
    assert(rows_view(m.found.rows@).len() == m.found.rows@.len());
}

/// What the decode engine says of 8-bit streams of a codec makes the row that is called
/// after that codec: it says that the codec is decoded if and only if the answer does, and
/// then has the engine's own limits.
pub proof fn row_is_made_of_its_answer(
    m: ProbeDevice,
    call: Call,
    reply: Reply,
    step: Step<ProbeDevice, Probed>,
)
    requires
        m.valid(),
        m.awaits(call),
        m.follows(reply, step),
        m.stage is Decode8,
    ensures
        ({
            let before = m.found@.rows;
            let j = before.len() as int;
            &&& j < 6
            &&& asks_decode(call, known(j).1, 8)
            &&& !says_yes(reply) ==> {
                let row = rows_after(step).last();
                &&& rows_after(step) == before.push(row)
                &&& row.codec == known(j).0
                &&& !row.decode && !row.encode
                &&& row.max_width is None && row.max_height is None && row.max_bit_depth is None
                &&& row.profiles.len() == 0 && row.extra.len() == 0
            }
            &&& says_yes(reply) ==> {
                &&& step matches Step::Call(next_call, next)
                &&& asks_decode(next_call, known(j).1, 10)
                &&& next.found@ == m.found@
                &&& next.stage matches ProbeStage::Decode10 { row }
                &&& row@.codec == known(j).0
                &&& row@.decode && !row@.encode
                &&& unless_zero(reply.caps.n_max_width, row@.max_width)
                &&& unless_zero(reply.caps.n_max_height, row@.max_height)
                &&& row@.max_bit_depth == Some(8u32)
                &&& row@.profiles.len() == 0
                &&& row@.extra.len() == (if reply.caps.n_max_mb_count > 0 {
                    1int
                } else {
                    0
                }) + (if reply.caps.n_num_nvdecs > 0 {
                    1int
                } else {
                    0
                })
                &&& reply.caps.n_max_mb_count > 0 ==> row@.extra.first() == (
                    "max_mb_count"@,
                    nat_text(reply.caps.n_max_mb_count as nat),
                )
                &&& reply.caps.n_num_nvdecs > 0 ==> row@.extra.last() == (
                    "num_nvdecs"@,
                    nat_text(reply.caps.n_num_nvdecs as nat),
                )
            }
        }),
{
    assert(rows_view(m.found.rows@).len() == m.found.rows@.len());
    if says_yes(reply) {
        if let Step::Call(_, next) = step {
            assert(rows_view(next.found.rows@).len() == next.found.rows@.len());
        }
    } else {
        let before = m.found@.rows;
        assert(before.push(rows_after(step).last()) =~= rows_after(step));
    }
}

/// What the decode engine says of 10-bit streams of the same codec makes its row ten bits
/// deep if it is a yes, and changes nothing else.
pub proof fn ten_bit_answer_only_deepens_the_row(
    m: ProbeDevice,
    call: Call,
    reply: Reply,
    step: Step<ProbeDevice, Probed>,
)
    requires
        m.valid(),
        m.awaits(call),
        m.follows(reply, step),
        m.stage is Decode10,
    ensures
        ({
            let before = m.found@.rows;
            let row = m.stage->Decode10_row@;
            let after = rows_after(step).last();
            &&& asks_decode(call, known(before.len() as int).1, 10)
            &&& row.codec == known(before.len() as int).0
            &&& rows_after(step) == before.push(after)
            &&& says_yes(reply) ==> after.max_bit_depth == Some(10u32)
            &&& !says_yes(reply) ==> after.max_bit_depth == row.max_bit_depth
            &&& after.codec == row.codec
            &&& after.decode == row.decode
            &&& after.encode == row.encode
            &&& after.max_width == row.max_width
            &&& after.max_height == row.max_height
            &&& after.profiles == row.profiles
            &&& after.extra == row.extra
        }),
{
    assert(rows_view(m.found.rows@).len() == m.found.rows@.len());
    let before = m.found@.rows;
    assert(before.push(rows_after(step).last()) =~= rows_after(step));
}

/// What the encode engine says of a codec goes into the row that is called after that
/// codec: its width with the width, its height with the height, whichever is larger, and
/// ten bits of depth if it says so. No other row changes.
pub proof fn limits_go_into_their_row(
    m: ProbeDevice,
    call: Call,
    reply: Reply,
    height_call: Call,
    height_m: ProbeDevice,
    height_reply: Reply,
    depth_call: Call,
    depth_m: ProbeDevice,
    depth_reply: Reply,
    step: Step<ProbeDevice, Probed>,
)
    requires
        m.valid(),
        m.stage matches ProbeStage::Asking { limit: Limit::Width, .. },
        m.awaits(call),
        reply.status == 0,
        m.follows(reply, Step::Call(height_call, height_m)),
        height_reply.status == 0,
        height_m.follows(height_reply, Step::Call(depth_call, depth_m)),
        depth_reply.status == 0,
        depth_m.follows(depth_reply, step),
    ensures
        ({
            let j = m.stage->Asking_codec as int;
            let (before, after) = (m.found@.rows, rows_after(step));
            &&& 0 <= j < 3
            &&& asks_encode(call, j, 16)
            &&& asks_encode(height_call, j, 17)
            &&& asks_encode(depth_call, j, 39)
            &&& before.len() == 6 && after.len() == 6
            &&& before[j].codec == known(j).0
            &&& after[j].codec == known(j).0
            &&& after[j].encode
            &&& after[j].decode == before[j].decode
            &&& larger_of(before[j].max_width, reply.number, after[j].max_width)
            &&& larger_of(before[j].max_height, height_reply.number, after[j].max_height)
            &&& depth_reply.number > 0 ==> larger_of(
                before[j].max_bit_depth,
                10,
                after[j].max_bit_depth,
            )
            &&& depth_reply.number <= 0 ==> {
                &&& before[j].max_bit_depth is Some ==> after[j].max_bit_depth
                    == before[j].max_bit_depth
                &&& before[j].max_bit_depth is None ==> after[j].max_bit_depth == Some(8u32)
            }
            &&& after[j].profiles == before[j].profiles
            &&& after[j].extra == before[j].extra
            &&& forall|i: int| 0 <= i < 6 && i != j ==> after[i] == before[i]
        }),
{
    reveal_with_fuel(asks_from, 5);
    let j = m.stage->Asking_codec as int;
    let before = m.found@.rows;
    assert forall|i: int| 0 <= i < j implies (#[trigger] before[i]).codec != codec_name(j) by {
        codec_names_differ(i, j);
    }
    lemma_row_of(before, codec_name(j), j);
}

/// Whether codec `j` is among the first identifiers that a session lists.
pub open spec fn lists(guids: Seq<Guid>, count: int, j: int) -> bool {
    exists|k: int| 0 <= k < guids.len() && k < count && names_codec(#[trigger] guids[k], j)
}

/// The encode engine is asked about the first codec of the report that the session lists,
/// and about none where it lists none.
pub proof fn first_listed_codec_is_asked_about(
    m: ProbeDevice,
    reply: Reply,
    step: Step<ProbeDevice, Probed>,
)
    requires
        m.valid(),
        m.follows(reply, step),
        m.stage matches ProbeStage::ListingGuids { fns, .. } && fns.nv_enc_get_encode_caps != 0,
        reply.status == 0,
    ensures
        ({
            let asked = |j: int| step matches Step::Call(call, _) && asks_encode(call, j, 16);
            let listed = |j: int| lists(reply.guids@, reply.count as int, j);
            &&& asked(0) <==> listed(0)
            &&& asked(1) <==> listed(1) && !listed(0)
            &&& asked(2) <==> listed(2) && !listed(1) && !listed(0)
            &&& step matches Step::Call(call, _) ==> call is NvEncGetEncodeCaps ==> asked(0)
                || asked(1) || asked(2)
        }),
{
    reveal_with_fuel(asks_from, 5);
    lemma_lists(reply.guids@, reply.count as int, 0);
    lemma_lists(reply.guids@, reply.count as int, 1);
    lemma_lists(reply.guids@, reply.count as int, 2);
}

proof fn lemma_lists(guids: Seq<Guid>, count: int, j: int)
    requires
        0 <= j < 3,
        0 <= count,
    ensures
        lists(guids, count, j) == offers(crate::engine::first_guids(guids, count), j),
{
    let first = crate::engine::first_guids(guids, count);
    if lists(guids, count, j) {
        let k = choose|k: int|
            0 <= k < guids.len() && k < count && names_codec(#[trigger] guids[k], j);
        assert(first[k] == guids[k]);
    }
    if offers(first, j) {
        let k = choose|k: int|
            0 <= k < first.len() && crate::report::is_encode_codec(#[trigger] first[k], j);
        assert(guids[k] == first[k]);
        assert(names_codec(guids[k], j));
    }
}

/// After a codec the encode engine is asked about the next one that the session offers,
/// from its largest width on, and about none that it does not offer.
pub proof fn next_offered_codec_is_asked_about(
    m: ProbeDevice,
    reply: Reply,
    step: Step<ProbeDevice, Probed>,
)
    requires
        m.valid(),
        m.follows(reply, step),
        m.stage matches ProbeStage::Asking { limit, .. } && (limit is TenBit || reply.status != 0),
    ensures
        ({
            let session = m.stage->Asking_session;
            let done = m.stage->Asking_codec as int;
            let asked = |j: int| step matches Step::Call(call, _) && asks_encode(call, j, 16);
            let offered = |j: int| lists(session.guids@, session.guids@.len() as int, j);
            &&& !asked(0)
            &&& asked(1) <==> done < 1 && offered(1)
            &&& asked(2) <==> done < 2 && offered(2) && !(done < 1 && offered(1))
        }),
{
    reveal_with_fuel(asks_from, 5);
    let session = m.stage->Asking_session;
    let all = session.guids@.len() as int;
    assert(crate::engine::first_guids(session.guids@, all) == session.guids@);
    lemma_lists(session.guids@, all, 0);
    lemma_lists(session.guids@, all, 1);
    lemma_lists(session.guids@, all, 2);
}

/// A complete run of the probe of a device, with the calls that it made.
pub open spec fn is_probe_by(
    device: i32,
    run: Seq<(ProbeDevice, Reply)>,
    calls: Seq<Call>,
    out: Probed,
) -> bool {
    &&& is_run_of(
        run,
        calls,
        |m: ProbeDevice, r: Reply, s: Step<ProbeDevice, Probed>| m.follows(r, s),
        out,
    )
    &&& run[0].0.stage is Naming
    &&& run[0].0.found@ == fresh(device)
    &&& run[0].0.awaits(calls[0])
}

/// Where in a run the driver's version is asked for: right after the compute capability,
/// whose minor part is asked for only if there is a major one.
pub open spec fn version_place(run: Seq<(ProbeDevice, Reply)>) -> int {
    if reply_error(run[2].1) is None {
        4
    } else {
        3
    }
}

/// Whether step `p` of a probe is where its stage belongs.
pub open spec fn in_place(run: Seq<(ProbeDevice, Reply)>, p: int) -> bool {
    match run[p].0.stage {
        ProbeStage::Naming => p == 0,
        ProbeStage::Sizing => p == 1,
        ProbeStage::Major => p == 2,
        ProbeStage::Minor { major } => p == 3 && version_place(run) == 4 && major
            == run[2].1.number,
        ProbeStage::Version => p == version_place(run),
        ProbeStage::Entering => p == version_place(run) + 1,
        ProbeStage::VersionOnly => false,
        _ => p > version_place(run) + 1 && p >= 5,
    }
}

/// The text that a reply holds, unless the call failed.
pub open spec fn text_said(reply: Reply) -> Seq<char> {
    match reply.text {
        Some(t) if reply_error(reply) is None => t@,
        _ => Seq::empty(),
    }
}

/// The size that a reply holds, unless the call failed.
pub open spec fn size_said(reply: Reply) -> Option<u64> {
    if reply_error(reply) is None {
        Some(reply.size)
    } else {
        None
    }
}

/// One part of a compute capability: none is below zero.
pub open spec fn part_said(n: i32) -> nat {
    if n < 0 {
        0
    } else {
        n as nat
    }
}

/// The version that a reply holds, if it holds one.
pub open spec fn version_said(reply: Reply) -> Option<Seq<char>> {
    if reply.load_error is None && reply.status == 0 && reply.number > 0 {
        Some(version_text(reply.number))
    } else {
        None
    }
}

/// What is known of a device at step `p` of a probe.
pub open spec fn identity_known(
    device: i32,
    run: Seq<(ProbeDevice, Reply)>,
    p: int,
) -> bool {
    let f = run[p].0.found@;
    &&& f.device == device
    &&& p >= 1 ==> f.name == text_said(run[0].1)
    &&& p >= 2 ==> f.memory == size_said(run[1].1)
    &&& p >= 3 && p >= version_place(run) ==> (match f.capability {
        Some((major, minor)) => version_place(run) == 4 && reply_error(run[3].1) is None && major
            == part_said(run[2].1.number) && minor == part_said(run[3].1.number),
        None => version_place(run) == 3 || reply_error(run[3].1) is Some,
    })
    &&& p >= 4 && p > version_place(run) ==> {
        let v = version_said(run[version_place(run)].1);
        &&& f.driver == v
        &&& v matches Some(text) ==> f.api == Some("CUDA "@ + text)
        &&& v is None ==> f.api is None
    }
}

proof fn lemma_identity(
    device: i32,
    run: Seq<(ProbeDevice, Reply)>,
    calls: Seq<Call>,
    out: Probed,
    p: int,
)
    requires
        is_probe_by(device, run, calls, out),
        0 <= p < run.len(),
    ensures
        run[p].0.valid(),
        run[p].0.awaits(calls[p]),
        in_place(run, p),
        identity_known(device, run, p),
    decreases p,
{
    reveal_with_fuel(asks_from, 5);
    if p > 0 {
        lemma_identity(device, run, calls, out, p - 1);
        assert(leads_on_by(
            run,
            calls,
            |m: ProbeDevice, r: Reply, s: Step<ProbeDevice, Probed>| m.follows(r, s),
            p - 1,
        ));
        every_report_is_complete(run[p - 1].0, run[p - 1].1, Step::Call(calls[p], run[p].0));
    }
}

/// The report of a device says of it what the driver said: its name, its memory, its
/// compute capability from the major and the minor part, and the driver's version, each
/// from the answer to the question for it about that device. What the driver would not say
/// is left empty.
pub proof fn report_says_what_the_driver_said(
    device: i32,
    run: Seq<(ProbeDevice, Reply)>,
    calls: Seq<Call>,
    out: Probed,
)
    requires
        is_probe_by(device, run, calls, out),
    ensures
        ({
            let info = out.info@;
            let v = version_place(run);
            &&& run.len() >= 5 && v + 1 < run.len()
            &&& calls[0] == (Call::CuDeviceGetName { len: 256, device })
            &&& calls[1] == (Call::CuDeviceTotalMem { device })
            &&& calls[2] == (Call::CuDeviceGetAttribute { attribute: 75, device })
            &&& v == 4 ==> calls[3] == (Call::CuDeviceGetAttribute { attribute: 76, device })
            &&& calls[v] == Call::CuDriverGetVersion
            &&& calls[v + 1] == (Call::CuCtxCreate { flags: 0, device })
            &&& info.name == text_said(run[0].1)
            &&& info.total_memory_bytes == size_said(run[1].1)
            &&& v == 4 && reply_error(run[3].1) is None ==> info.extra =~= seq![
                (
                    "compute_capability"@,
                    nat_text(part_said(run[2].1.number)) + "."@ + nat_text(
                        part_said(run[3].1.number),
                    ),
                ),
            ]
            &&& v == 3 || reply_error(run[3].1) is Some ==> info.extra.len() == 0
            &&& info.driver_version == version_said(run[v].1)
            &&& version_said(run[v].1) matches Some(text) ==> info.api_version == Some(
                "CUDA "@ + text,
            )
            &&& version_said(run[v].1) is None ==> info.api_version is None
        }),
{
    reveal_with_fuel(asks_from, 5);
    let last = run.len() - 1;
    lemma_identity(device, run, calls, out, last);
    lemma_identity(device, run, calls, out, 0);
    if last >= 1 {
        lemma_identity(device, run, calls, out, 1);
    }
    if last >= 2 {
        lemma_identity(device, run, calls, out, 2);
    }
    if last >= 3 {
        lemma_identity(device, run, calls, out, 3);
        assert(leads_on_by(
            run,
            calls,
            |m: ProbeDevice, r: Reply, s: Step<ProbeDevice, Probed>| m.follows(r, s),
            2,
        ));
    }
    if last >= 4 {
        lemma_identity(device, run, calls, out, 4);
        assert(leads_on_by(
            run,
            calls,
            |m: ProbeDevice, r: Reply, s: Step<ProbeDevice, Probed>| m.follows(r, s),
            3,
        ));
    }
    if last >= 5 {
        lemma_identity(device, run, calls, out, 5);
        assert(leads_on_by(
            run,
            calls,
            |m: ProbeDevice, r: Reply, s: Step<ProbeDevice, Probed>| m.follows(r, s),
            4,
        ));
    }
}

/// Whether, before step `p`, the decode engine has said yes to 8-bit streams of a codec.
pub open spec fn said_yes(
    run: Seq<(ProbeDevice, Reply)>,
    calls: Seq<Call>,
    p: int,
    number: int,
) -> bool {
    exists|k: int|
        0 <= k < p && #[trigger] asks_decode(calls[k], number, 8) && says_yes(run[k].1)
}

/// Whether, before step `p`, the encode engine has answered the last question about codec
/// `j`.
pub open spec fn was_told(
    run: Seq<(ProbeDevice, Reply)>,
    calls: Seq<Call>,
    p: int,
    j: int,
) -> bool {
    exists|k: int|
        0 <= k < p && #[trigger] asks_encode(calls[k], j, 39) && run[k].1.status == 0
}

/// How many codecs the decode engine has answered for at step `p`.
pub open spec fn answered(run: Seq<(ProbeDevice, Reply)>, p: int) -> int {
    run[p].0.found@.rows.len() + (if run[p].0.stage is Decode10 {
        1int
    } else {
        0
    })
}

/// Whether the rows at step `p` of a probe are those of the answers before it.
pub open spec fn rows_answer(
    run: Seq<(ProbeDevice, Reply)>,
    calls: Seq<Call>,
    p: int,
) -> bool {
    let rows = run[p].0.found@.rows;
    &&& forall|j: int|
        0 <= j < rows.len() ==> (#[trigger] rows[j]).decode == said_yes(
            run,
            calls,
            p,
            known(j).1,
        ) && rows[j].encode == was_told(run, calls, p, j)
    &&& run[p].0.stage matches ProbeStage::Decode10 { row } ==> row@.decode && said_yes(
        run,
        calls,
        p,
        known(rows.len() as int).1,
    )
    &&& forall|j: int| answered(run, p) <= j < 6 ==> !said_yes(run, calls, p, (#[trigger] known(j)).1)
    &&& !(run[p].0.stage is Asking) && !(run[p].0.stage is Shutting) && !(
    run[p].0.stage is Leaving) ==> forall|j: int| !#[trigger] was_told(run, calls, p, j)
}

proof fn lemma_known_differ(i: int, j: int)
    requires
        0 <= i < 6,
        0 <= j < 6,
        i != j,
    ensures
        known(i).1 != known(j).1,
{
}

/// One more step adds one more answer.
proof fn lemma_one_more(
    run: Seq<(ProbeDevice, Reply)>,
    calls: Seq<Call>,
    p: int,
    number: int,
    j: int,
)
    requires
        0 <= p < run.len(),
    ensures
        said_yes(run, calls, p + 1, number) == (said_yes(run, calls, p, number) || (asks_decode(
            calls[p],
            number,
            8,
        ) && says_yes(run[p].1))),
        was_told(run, calls, p + 1, j) == (was_told(run, calls, p, j) || (asks_encode(
            calls[p],
            j,
            39,
        ) && run[p].1.status == 0)),
{
    if said_yes(run, calls, p + 1, number) {
        let k = choose|k: int|
            0 <= k < p + 1 && #[trigger] asks_decode(calls[k], number, 8) && says_yes(run[k].1);
        if k < p {
            assert(asks_decode(calls[k], number, 8));
        }
    }
    if said_yes(run, calls, p, number) {
        let k = choose|k: int|
            0 <= k < p && #[trigger] asks_decode(calls[k], number, 8) && says_yes(run[k].1);
        assert(asks_decode(calls[k], number, 8));
    }
    if was_told(run, calls, p + 1, j) {
        let k = choose|k: int|
            0 <= k < p + 1 && #[trigger] asks_encode(calls[k], j, 39) && run[k].1.status == 0;
        if k < p {
            assert(asks_encode(calls[k], j, 39));
        }
    }
    if was_told(run, calls, p, j) {
        let k = choose|k: int|
            0 <= k < p && #[trigger] asks_encode(calls[k], j, 39) && run[k].1.status == 0;
        assert(asks_encode(calls[k], j, 39));
    }
}

/// What a step does to the rows, by what was asked and answered.
proof fn lemma_rows_step(
    m: ProbeDevice,
    call: Call,
    reply: Reply,
    step: Step<ProbeDevice, Probed>,
)
    requires
        m.valid(),
        m.awaits(call),
        m.follows(reply, step),
        !(m.stage is VersionOnly),
    ensures
        ({
            let (before, after) = (m.found@.rows, rows_after(step));
            let n = before.len() as int;
            &&& m.stage is Decode8 && !says_yes(reply) ==> after.len() == n + 1 && !after[n].decode
                && !after[n].encode
            &&& m.stage is Decode8 && says_yes(reply) ==> after == before && (
            step matches Step::Call(_, next) && next.stage matches ProbeStage::Decode10 { row }
                && row@.decode)
            &&& m.stage is Decode10 ==> after.len() == n + 1 && after[n].decode
                == m.stage->Decode10_row@.decode && !after[n].encode
            &&& m.stage is Entering && step is Done ==> after.len() == 6 && forall|j: int|
                0 <= j < 6 ==> !(#[trigger] after[j]).decode && !after[j].encode
            &&& !(m.stage is Decode8) && !(m.stage is Decode10) && !(m.stage is Entering
                && step is Done) ==> after.len() == n
            &&& forall|j: int|
                0 <= j < n ==> (#[trigger] after[j]).decode == before[j].decode
                    && after[j].encode == (before[j].encode || (asks_encode(call, j, 39)
                    && reply.status == 0))
            &&& step matches Step::Call(_, next) ==> {
                &&& next.stage is Decode10 <==> m.stage is Decode8 && says_yes(reply)
                &&& !(m.stage is Asking) && !(m.stage is Shutting) && !(m.stage is Leaving) && (
                next.stage is Asking || next.stage is Shutting || next.stage is Leaving) ==> n == 6
                &&& m.stage is Asking || m.stage is Shutting || m.stage is Leaving ==> (
                next.stage is Asking || next.stage is Shutting || next.stage is Leaving)
            }
        }),
{
    reveal_with_fuel(asks_from, 5);
    let before = m.found@.rows;
    assert(rows_view(m.found.rows@).len() == m.found.rows@.len());
    if m.stage is Asking {
        let j = m.stage->Asking_codec as int;
        assert forall|i: int| 0 <= i < j implies (#[trigger] before[i]).codec != codec_name(j) by {
            codec_names_differ(i, j);
        }
        lemma_row_of(before, codec_name(j), j);
    }
    if m.stage is Decode8 {
        row_is_made_of_its_answer(m, call, reply, step);
    }
    if m.stage is Decode10 {
        ten_bit_answer_only_deepens_the_row(m, call, reply, step);
    }
}

proof fn lemma_rows_answer(
    device: i32,
    run: Seq<(ProbeDevice, Reply)>,
    calls: Seq<Call>,
    out: Probed,
    p: int,
)
    requires
        is_probe_by(device, run, calls, out),
        0 <= p < run.len(),
    ensures
        rows_answer(run, calls, p),
    decreases p,
{
    lemma_identity(device, run, calls, out, p);
    if p > 0 {
        let (m, reply, call) = (run[p - 1].0, run[p - 1].1, calls[p - 1]);
        lemma_identity(device, run, calls, out, p - 1);
        lemma_rows_answer(device, run, calls, out, p - 1);
        assert(leads_on_by(
            run,
            calls,
            |m: ProbeDevice, r: Reply, s: Step<ProbeDevice, Probed>| m.follows(r, s),
            p - 1,
        ));
        lemma_rows_step(m, call, reply, Step::Call(calls[p], run[p].0));
        questions_are_about_the_device(m, call);
        assert(rows_view(m.found.rows@).len() == m.found.rows@.len());
        let rows = run[p].0.found@.rows;
        assert forall|j: int| 0 <= j < rows.len() implies (#[trigger] rows[j]).decode == said_yes(
            run,
            calls,
            p,
            known(j).1,
        ) && rows[j].encode == was_told(run, calls, p, j) by {
            lemma_one_more(run, calls, p - 1, known(j).1, j);
            if j < m.found@.rows.len() {
                assert(m.found@.rows[j].decode == said_yes(run, calls, p - 1, known(j).1));
                if m.stage is Decode8 {
                    lemma_known_differ(j, m.found@.rows.len() as int);
                }
            }
        }
        assert forall|j: int| answered(run, p) <= j < 6 implies !said_yes(
            run,
            calls,
            p,
            (#[trigger] known(j)).1,
        ) by {
            lemma_one_more(run, calls, p - 1, known(j).1, j);
            if m.stage is Decode8 && j != m.found@.rows.len() {
                lemma_known_differ(j, m.found@.rows.len() as int);
            }
        }
        if run[p].0.stage is Decode10 {
            lemma_one_more(run, calls, p - 1, known(rows.len() as int).1, 0);
        }
        assert forall|j: int| true implies (!(run[p].0.stage is Asking) && !(
        run[p].0.stage is Shutting) && !(run[p].0.stage is Leaving) ==> !#[trigger] was_told(
            run,
            calls,
            p,
            j,
        )) by {
            lemma_one_more(run, calls, p - 1, 0, j);
        }
    } else {
        assert forall|j: int| !#[trigger] was_told(run, calls, 0, j) by {}
        assert forall|j: int| !#[trigger] said_yes(run, calls, 0, known(j).1) by {}
    }
}

/// A report has a row for each codec, under the pipeline's name for it. The row says that
/// the codec is decoded if and only if the decode engine, asked by its own number for that
/// codec, has said so, and that it is encoded if and only if the encode engine, asked by
/// its own identifier for that codec, has told its limits.
pub proof fn each_row_is_of_its_codec(
    device: i32,
    run: Seq<(ProbeDevice, Reply)>,
    calls: Seq<Call>,
    out: Probed,
    j: int,
)
    requires
        is_probe_by(device, run, calls, out),
        0 <= j < 6,
    ensures
        out.info@.codecs.len() == 6,
        out.info@.codecs[j].codec == known(j).0,
        out.info@.codecs[j].decode <==> said_yes(run, calls, run.len() as int, known(j).1),
        out.info@.codecs[j].encode <==> was_told(run, calls, run.len() as int, j),
{
    let last = run.len() - 1;
    let (m, reply) = (run[last].0, run[last].1);
    lemma_identity(device, run, calls, out, last);
    lemma_rows_answer(device, run, calls, out, last);
    lemma_rows_step(m, calls[last], reply, Step::Done(out));
    every_report_is_complete(m, reply, Step::Done(out));
    questions_are_about_the_device(m, calls[last]);
    assert(rows_view(m.found.rows@).len() == m.found.rows@.len());
    lemma_one_more(run, calls, last, known(j).1, j);
    assert(out.info@.codecs[j].codec == codec_name(j));
    if j < m.found@.rows.len() {
        assert(m.found@.rows[j].decode == said_yes(run, calls, last, known(j).1));
    } else {
        assert(!said_yes(run, calls, last, known(j).1));
    }
}

/// The probe of all devices passes the calls of each device's probe on, and enters what
/// that probe has brought behind the devices before it, with its warning behind the
/// warnings before it. A device is probed by the handle that its lookup gave.
pub proof fn each_probe_makes_its_entry(
    m: EngineInfo,
    reply: Reply,
    step: Step<EngineInfo, EngineReport>,
)
    requires
        m.follows(reply, step),
        m.stage is Probing,
    ensures
        exists|inner: Step<ProbeDevice, Probed>| #[trigger]
            m.stage->Probing_probe.follows(reply, inner) && match inner {
                Step::Call(inner_call, inner_next) => {
                    &&& step matches Step::Call(call, next)
                    &&& call == inner_call
                    &&& next.stage == (EngineStage::Probing { probe: inner_next })
                    &&& next.devices@ == m.devices@
                    &&& next.next == m.next && next.count == m.count
                },
                Step::Done(p) => {
                    let (devices, warnings) = match step {
                        Step::Call(_, next) => (next.devices@, next.warnings@),
                        Step::Done(report) => (report.devices@, report.warnings@),
                    };
                    &&& devices == m.devices@.push(p.info)
                    &&& p.warning is None ==> texts_view(warnings) == texts_view(m.warnings@)
                    &&& p.warning matches Some(w) ==> texts_view(warnings) == texts_view(
                        m.warnings@,
                    ).push("oxideav-nvidia: NVENC probe skipped: "@ + w@)
                    &&& step is Done <==> m.next >= m.count
                    &&& step matches Step::Call(call, next) ==> call == (Call::CuDeviceGet {
                        ordinal: m.next as i32,
                    }) && next.next == m.next + 1
                },
            },
{
    let probe = m.stage->Probing_probe;
    let inner = choose|inner: Step<ProbeDevice, Probed>| #[trigger]
        probe.follows(reply, inner) && lifts(m@, inner, step);
    assert(probe.follows(reply, inner) && lifts(m@, inner, step));
}

/// A device that is found is probed by the handle that the driver gave for its ordinal.
pub proof fn device_is_probed_by_its_handle(
    m: EngineInfo,
    reply: Reply,
    step: Step<EngineInfo, EngineReport>,
)
    requires
        m.follows(reply, step),
        m.stage is Finding,
    ensures
        step matches Step::Call(call, next) && next.stage matches EngineStage::Probing { probe }
            && probe.awaits(call) && probe.valid() && (reply_error(reply) is None
            ==> probe.found.device == reply.number && call == (Call::CuDeviceGetName {
            len: 256,
            device: reply.number,
        })) && (reply_error(reply) is Some ==> call == Call::CuDriverGetVersion),
{
}

/// What the encode engine brings is used as it came: the table that was fetched to open the
/// session, the session that was opened to ask about codecs, and as many identifiers as it
/// said there are. The findings stay as they are on the way.
pub proof fn encode_session_is_used_as_it_came(
    m: ProbeDevice,
    reply: Reply,
    step: Step<ProbeDevice, Probed>,
)
    requires
        m.follows(reply, step),
        reply.load_error is None,
        reply.status == 0,
    ensures
        match m.stage {
            ProbeStage::Entering => step matches Step::Call(_, next) ==> next.found.ctx
                == reply.handle,
            ProbeStage::Table => reply.table.nv_enc_open_encode_session_ex != 0 ==> (
            step matches Step::Call(_, next) && next.stage == (ProbeStage::Opening {
                fns: reply.table,
            }) && next.found@ == m.found@),
            ProbeStage::Opening { fns } => fns.nv_enc_get_encode_guid_count != 0 ==> (
            step matches Step::Call(_, next) && next.stage == (ProbeStage::CountingGuids {
                fns,
                encoder: reply.handle,
            }) && next.found@ == m.found@),
            ProbeStage::CountingGuids { fns, encoder } => reply.count > 0
                && fns.nv_enc_get_encode_guids != 0 ==> (step matches Step::Call(_, next)
                && next.stage == (ProbeStage::ListingGuids {
                fns,
                encoder,
                capacity: reply.count,
            }) && next.found@ == m.found@),
            ProbeStage::ListingGuids { fns, encoder, .. } => step matches Step::Call(_, next)
                ==> (next.stage matches ProbeStage::Asking { session, .. } ==> session.fns == fns
                && session.encoder == encoder && next.found@ == m.found@),
            _ => true,
        },
{
    reveal_with_fuel(asks_from, 5);
}

/// Where the encode engine cannot be asked, the report is made without it, with a warning
/// that says why; the rows stay as the decode engine has made them.
pub proof fn unasked_encode_engine_is_warned_of(
    m: ProbeDevice,
    reply: Reply,
    step: Step<ProbeDevice, Probed>,
)
    requires
        m.follows(reply, step),
        m.stage is Table || m.stage is Opening,
        reply.load_error is Some && m.stage is Table || reply.load_error is None && reply.status
            != 0,
    ensures
        rows_after(step) == m.found@.rows,
        ({
            let warning = match step {
                Step::Call(_, next) => next.found@.warning,
                Step::Done(p) => text_view(p.warning),
            };
            &&& m.stage is Table && reply.load_error is Some ==> warning == Some(
                "vtable: "@ + reply.load_error->0@,
            )
            &&& m.stage is Table && reply.load_error is None ==> warning == Some(
                "NvEncodeAPICreateInstance -> NVENCSTATUS "@ + crate::text::int_text(
                    reply.status as int,
                ),
            )
            &&& m.stage is Opening ==> warning == Some(
                "nvEncOpenEncodeSessionEx -> "@ + crate::text::int_text(reply.status as int),
            )
        }),
{
}

/// A device that cannot be looked up is reported all the same: the driver's version, and a row
/// for each codec that says nothing.
pub proof fn missing_device_is_reported_empty(
    m: ProbeDevice,
    reply: Reply,
    step: Step<ProbeDevice, Probed>,
    j: int,
)
    requires
        m.follows(reply, step),
        m.stage is VersionOnly,
        m.found@ == fresh(m.found.device),
        0 <= j < 6,
    ensures
        step matches Step::Done(p) && {
            let info = p.info@;
            let row = info.codecs[j];
            &&& info.name.len() == 0
            &&& info.total_memory_bytes is None
            &&& info.extra.len() == 0
            &&& info.driver_version == version_said(reply)
            &&& version_said(reply) matches Some(text) ==> info.api_version == Some(
                "CUDA "@ + text,
            )
            &&& version_said(reply) is None ==> info.api_version is None
            &&& p.warning is None
            &&& info.codecs.len() == 6
            &&& row.codec == known(j).0
            &&& !row.decode && !row.encode
            &&& row.max_width is None && row.max_height is None && row.max_bit_depth is None
            &&& row.profiles.len() == 0 && row.extra.len() == 0
        },
{
}

} // verus!
