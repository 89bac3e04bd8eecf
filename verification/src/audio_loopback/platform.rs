//! What differs between platforms: whether output devices can be captured,
//! which endpoints count as capturable devices, and how a capture is opened.

use crate::audio_loopback::device_enumerator::{
    device_index_by_id, has_device, is_first_with_id, lemma_listed_device_is_found_by_its_id,
};
use crate::audio_loopback::types::{
    device_models, AudioLoopbackDevice, CaptureError, DeviceModel, DeviceType, LoopbackMethod,
};
use crate::text::{
    contains, is_prefix, list_contains, lowercase, occurs_in, replace, replaced, same_text, texts,
    to_lowercase,
};
use vstd::prelude::*;
use vstd::string::StringExecFns;

verus! {

/// The platforms that are told apart.
#[derive(Debug, Clone, Copy, PartialEq, Eq, Structural)]
pub enum Platform {
    Windows,
    MacOs,
    Other,
}

impl Platform {
    /// Whether the platform can capture what an output device plays.
    pub open spec fn spec_has_native_loopback(self) -> bool {
        self == Platform::Windows
    }

    /// Whether the platform can capture what an output device plays.
    pub fn has_native_loopback(&self) -> (r: bool)
        ensures
            r == self.spec_has_native_loopback(),
    {
        match self {
            Platform::Windows => true,
            _ => false,
        }
    }

    /// Whether the platform has a capture backend at all.
    pub open spec fn spec_is_supported(self) -> bool {
        self != Platform::Other
    }

    /// Whether the platform has a capture backend at all.
    pub fn is_supported(&self) -> (r: bool)
        ensures
            r == self.spec_is_supported(),
    {
        match self {
            Platform::Other => false,
            _ => true,
        }
    }
}

/// The backend of a platform without audio capture: every request fails.
#[derive(Debug, Clone, Copy)]
pub struct UnsupportedBackend;

impl UnsupportedBackend {
    pub fn enumerate_devices(&self) -> (r: Result<Vec<AudioLoopbackDevice>, CaptureError>)
        ensures
            r == Err::<Vec<AudioLoopbackDevice>, CaptureError>(CaptureError::UnsupportedPlatform),
    {
        Err(CaptureError::UnsupportedPlatform)
    }

    pub fn find_device_by_id(&self, _device_id: &str) -> (r: Result<
        Option<AudioLoopbackDevice>,
        CaptureError,
    >)
        ensures
            r == Err::<Option<AudioLoopbackDevice>, CaptureError>(CaptureError::UnsupportedPlatform),
    {
        Err(CaptureError::UnsupportedPlatform)
    }

    /// No device is opened, whatever the id.
    pub fn start_capture(&self, _device_id: &str) -> (r: Result<CaptureMode, CaptureError>)
        ensures
            r == Err::<CaptureMode, CaptureError>(CaptureError::UnsupportedPlatform),
    {
        Err(CaptureError::UnsupportedPlatform)
    }

    pub fn auto_select_best_device(&self) -> (r: Result<Option<AudioLoopbackDevice>, CaptureError>)
        ensures
            r == Err::<Option<AudioLoopbackDevice>, CaptureError>(CaptureError::UnsupportedPlatform),
    {
        Err(CaptureError::UnsupportedPlatform)
    }
}

/// How a device is opened.
#[derive(Debug, Clone, Copy, PartialEq, Eq, Structural)]
pub enum CaptureMode {
    /// An output device, opened to listen to what it plays; playback is not
    /// claimed.
    Loopback,
    /// An input device, opened as such.
    Direct,
}

/// How a device is opened, or why it cannot be: an output device needs
/// native loopback and is refused without it, never replaced by another.
pub open spec fn spec_capture_mode(device_type: DeviceType, native_loopback: bool) -> Result<
    CaptureMode,
    CaptureError,
> {
    match device_type {
        DeviceType::Capture => Ok(CaptureMode::Direct),
        DeviceType::Render => if native_loopback {
            Ok(CaptureMode::Loopback)
        } else {
            Err(CaptureError::UnsupportedOperation)
        },
    }
}

/// How a device is opened, or why it cannot be.
pub fn capture_mode(device_type: DeviceType, native_loopback: bool) -> (r: Result<
    CaptureMode,
    CaptureError,
>)
    ensures
        r == spec_capture_mode(device_type, native_loopback),
{
    match device_type {
        DeviceType::Capture => Ok(CaptureMode::Direct),
        DeviceType::Render => if native_loopback {
            Ok(CaptureMode::Loopback)
        } else {
            Err(CaptureError::UnsupportedOperation)
        },
    }
}

/// What a start of capture on `device_id` comes to: the index of the device
/// among the enumerated ones and the mode to open it in. An id that no
/// device has gives `DeviceNotFound`.
pub fn resolve_capture(
    devices: &Vec<AudioLoopbackDevice>,
    device_id: &str,
    native_loopback: bool,
) -> (r: Result<(usize, CaptureMode), CaptureError>)
    ensures
        !has_device(device_models(devices@), device_id@) ==> r == Err::<
            (usize, CaptureMode),
            CaptureError,
        >(CaptureError::DeviceNotFound),
        has_device(device_models(devices@), device_id@) ==> exists|i: int|
            #![auto]
            is_first_with_id(device_models(devices@), device_id@, i) && match spec_capture_mode(
                devices[i].device_type,
                native_loopback,
            ) {
                Ok(mode) => r == Ok::<(usize, CaptureMode), CaptureError>((i as usize, mode)),
                Err(e) => r == Err::<(usize, CaptureMode), CaptureError>(e),
            },
{
    match device_index_by_id(devices, device_id) {
        None => Err(CaptureError::DeviceNotFound),
        Some(i) => {
            assert(device_models(devices@)[i as int].device_type == devices[i as int].device_type);
            match capture_mode(devices[i].device_type, native_loopback) {
                Ok(mode) => Ok((i, mode)),
                Err(e) => Err(e),
            }
        },
    }
}

/// What the system told of one endpoint. Either answer may be missing.
#[derive(Debug)]
pub struct EndpointInfo {
    pub id: Option<String>,
    pub name: Option<String>,
}

/// What an [`EndpointInfo`] holds.
pub struct EndpointModel {
    pub id: Option<Seq<char>>,
    pub name: Option<Seq<char>>,
}

impl View for EndpointInfo {
    type V = EndpointModel;

    open spec fn view(&self) -> EndpointModel {
        EndpointModel {
            id: match self.id {
                Some(s) => Some(s@),
                None => None,
            },
            name: match self.name {
                Some(s) => Some(s@),
                None => None,
            },
        }
    }
}

/// The models of a list of endpoints, in order.
pub open spec fn endpoint_models(endpoints: Seq<EndpointInfo>) -> Seq<EndpointModel> {
    Seq::new(endpoints.len(), |i: int| endpoints[i]@)
}

/// Whether the name of an input endpoint says that it records what the
/// machine plays.
pub open spec fn spec_is_loopback_name(name: Seq<char>) -> bool {
    let lower = lowercase(name);
    occurs_in("stereo mix"@, lower) || occurs_in("what u hear"@, lower) || occurs_in(
        "wave out mix"@,
        lower,
    ) || occurs_in("loopback"@, lower)
}

/// Whether the name of an input endpoint says that it records what the
/// machine plays.
pub fn is_loopback_name(name: &str) -> (r: bool)
    ensures
        r == spec_is_loopback_name(name@),
{
    let lower = to_lowercase(name);
    contains(lower.as_str(), "stereo mix") || contains(lower.as_str(), "what u hear") || contains(
        lower.as_str(),
        "wave out mix",
    ) || contains(lower.as_str(), "loopback")
}

/// The device that an endpoint of the given direction stands for, if any.
/// An endpoint counts where both its id and its name are known; an input
/// endpoint only where its name says that it records what is played. The
/// default endpoint is marked in its name.
pub open spec fn spec_endpoint_device(
    e: EndpointModel,
    default_id: Seq<char>,
    direction: DeviceType,
) -> Option<DeviceModel> {
    if e.id is Some && e.name is Some && (direction == DeviceType::Render || spec_is_loopback_name(
        e.name->Some_0,
    )) {
        let is_default = e.id->Some_0 == default_id;
        Some(
            DeviceModel {
                id: e.id->Some_0,
                name: if !is_default {
                    e.name->Some_0
                } else if direction == DeviceType::Render {
                    e.name->Some_0 + " (Default Output)"@
                } else {
                    e.name->Some_0 + " (Default Input)"@
                },
                is_default,
                sample_rate: 48000,
                channels: 2,
                format: "f32"@,
                device_type: direction,
                loopback_method: if direction == DeviceType::Render {
                    LoopbackMethod::RenderLoopback
                } else {
                    LoopbackMethod::StereoMix
                },
            },
        )
    } else {
        None
    }
}

/// The devices that the endpoints of one direction stand for, in order.
pub open spec fn spec_scan(
    endpoints: Seq<EndpointModel>,
    default_id: Seq<char>,
    direction: DeviceType,
) -> Seq<DeviceModel>
    decreases endpoints.len(),
{
    if endpoints.len() == 0 {
        Seq::empty()
    } else {
        let before = spec_scan(endpoints.drop_last(), default_id, direction);
        match spec_endpoint_device(endpoints.last(), default_id, direction) {
            Some(d) => before.push(d),
            None => before,
        }
    }
}

/// The device that an endpoint of the given direction stands for, if any.
pub fn endpoint_device(e: &EndpointInfo, default_id: &str, direction: DeviceType) -> (r: Option<
    AudioLoopbackDevice,
>)
    ensures
        match r {
            Some(d) => spec_endpoint_device(e@, default_id@, direction) == Some(d@),
            None => spec_endpoint_device(e@, default_id@, direction) is None,
        },
{
    let id = match &e.id {
        Some(id) => id,
        None => {
            return None;
        },
    };
    let name = match &e.name {
        Some(name) => name,
        None => {
            return None;
        },
    };
    let render = match direction {
        DeviceType::Render => true,
        DeviceType::Capture => false,
    };
    if !render && !is_loopback_name(name.as_str()) {
        return None;
    }
    let is_default = same_text(id.as_str(), default_id);
    let shown = if !is_default {
        name.clone()
    } else if render {
        name.clone().concat(" (Default Output)")
    } else {
        name.clone().concat(" (Default Input)")
    };
    Some(
        AudioLoopbackDevice {
            id: id.clone(),
            name: shown,
            is_default,
            sample_rate: 48000,
            channels: 2,
            format: String::from_str("f32"),
            device_type: direction,
            loopback_method: if render {
                LoopbackMethod::RenderLoopback
            } else {
                LoopbackMethod::StereoMix
            },
        },
    )
}

/// The devices that the endpoints of one direction stand for, in order.
pub fn scan_devices(endpoints: &Vec<EndpointInfo>, default_id: &str, direction: DeviceType) -> (r:
    Vec<AudioLoopbackDevice>)
    ensures
        device_models(r@) == spec_scan(endpoint_models(endpoints@), default_id@, direction),
{
    let ghost all = endpoint_models(endpoints@);
    let mut out: Vec<AudioLoopbackDevice> = Vec::new();
    let mut i: usize = 0;
    assert(all.subrange(0, 0) =~= Seq::<EndpointModel>::empty());
    assert(device_models(out@) =~= Seq::<DeviceModel>::empty());
    while i < endpoints.len()
        invariant
            i <= endpoints.len(),
            all == endpoint_models(endpoints@),
            device_models(out@) == spec_scan(all.subrange(0, i as int), default_id@, direction),
        decreases endpoints.len() - i,
    {
        let ghost before = device_models(out@);
        let ghost prefix = all.subrange(0, i + 1);
        assert(prefix.drop_last() =~= all.subrange(0, i as int));
        assert(prefix.last() == endpoints@[i as int]@);
        match endpoint_device(&endpoints[i], default_id, direction) {
            Some(d) => {
                out.push(d);
                assert(device_models(out@) =~= before.push(d@));
            },
            None => {},
        }
        i += 1;
    }
    assert(all.subrange(0, endpoints.len() as int) =~= all);
    out
}

/// The output devices among the endpoints.
pub fn scan_render_devices(endpoints: &Vec<EndpointInfo>, default_id: &str) -> (r: Vec<
    AudioLoopbackDevice,
>)
    ensures
        device_models(r@) == spec_scan(endpoint_models(endpoints@), default_id@, DeviceType::Render),
{
    scan_devices(endpoints, default_id, DeviceType::Render)
}

/// The input devices among the endpoints that record what is played.
pub fn scan_capture_devices(endpoints: &Vec<EndpointInfo>, default_id: &str) -> (r: Vec<
    AudioLoopbackDevice,
>)
    ensures
        device_models(r@) == spec_scan(
            endpoint_models(endpoints@),
            default_id@,
            DeviceType::Capture,
        ),
{
    scan_devices(endpoints, default_id, DeviceType::Capture)
}

/// The device that stands in when no endpoint counted: the default output,
/// where its id and name are known.
pub open spec fn spec_fallback_device(default_render: Option<EndpointModel>) -> Option<DeviceModel> {
    match default_render {
        Some(e) => if e.id is Some && e.name is Some {
            Some(
                DeviceModel {
                    id: e.id->Some_0,
                    name: e.name->Some_0 + " (Default - Fallback)"@,
                    is_default: true,
                    sample_rate: 48000,
                    channels: 2,
                    format: "f32"@,
                    device_type: DeviceType::Render,
                    loopback_method: LoopbackMethod::RenderLoopback,
                },
            )
        } else {
            None
        },
        None => None,
    }
}

/// The id by which the default endpoint is recognised: its id where it is
/// known, else the empty text.
pub open spec fn spec_default_id(default: Option<EndpointModel>) -> Seq<char> {
    match default {
        Some(e) => match e.id {
            Some(id) => id,
            None => Seq::empty(),
        },
        None => Seq::empty(),
    }
}

/// All capturable devices of a platform with native loopback: the output
/// devices, then the inputs that record what is played; where there is
/// neither, the default output alone.
pub open spec fn spec_enumerate(
    render: Seq<EndpointModel>,
    capture: Seq<EndpointModel>,
    default_render: Option<EndpointModel>,
    default_capture: Option<EndpointModel>,
) -> Seq<DeviceModel> {
    let found = spec_scan(render, spec_default_id(default_render), DeviceType::Render) + spec_scan(
        capture,
        spec_default_id(default_capture),
        DeviceType::Capture,
    );
    if found.len() == 0 {
        match spec_fallback_device(default_render) {
            Some(d) => seq![d],
            None => found,
        }
    } else {
        found
    }
}

/// The id by which the default endpoint is recognised.
pub fn default_id(default: &Option<EndpointInfo>) -> (r: String)
    ensures
        r@ == spec_default_id(
            match default {
                Some(e) => Some(e@),
                None => None,
            },
        ),
{
    match default {
        Some(e) => match &e.id {
            Some(id) => id.clone(),
            None => String::new(),
        },
        None => String::new(),
    }
}

/// All capturable devices of a platform with native loopback.
pub fn enumerate_devices(
    render: &Vec<EndpointInfo>,
    capture: &Vec<EndpointInfo>,
    default_render: &Option<EndpointInfo>,
    default_capture: &Option<EndpointInfo>,
) -> (r: Vec<AudioLoopbackDevice>)
    ensures
        device_models(r@) == spec_enumerate(
            endpoint_models(render@),
            endpoint_models(capture@),
            match default_render {
                Some(e) => Some(e@),
                None => None,
            },
            match default_capture {
                Some(e) => Some(e@),
                None => None,
            },
        ),
{
    let render_default = default_id(default_render);
    let capture_default = default_id(default_capture);
    let mut found = scan_render_devices(render, render_default.as_str());
    let mut inputs = scan_capture_devices(capture, capture_default.as_str());
    let ghost first = device_models(found@);
    let ghost second = device_models(inputs@);
    found.append(&mut inputs);
    assert(device_models(found@) =~= first + second);
    if found.len() == 0 {
        match default_render {
            Some(e) => match (&e.id, &e.name) {
                (Some(id), Some(name)) => {
                    let d = AudioLoopbackDevice {
                        id: id.clone(),
                        name: name.clone().concat(" (Default - Fallback)"),
                        is_default: true,
                        sample_rate: 48000,
                        channels: 2,
                        format: String::from_str("f32"),
                        device_type: DeviceType::Render,
                        loopback_method: LoopbackMethod::RenderLoopback,
                    };
                    found.push(d);
                    assert(device_models(found@) =~= seq![d@]);
                },
                _ => {},
            },
            None => {},
        }
    }
    found
}

/// The id that a name alone gives to a device of a platform that knows its
/// devices by name: `input_` or `output_`, then the name in lower case with
/// its spaces replaced by underscores. Two devices of one name share it.
pub open spec fn spec_named_device_id(name: Seq<char>, is_input: bool) -> Seq<char> {
    (if is_input {
        "input_"@
    } else {
        "output_"@
    }) + lowercase(replaced(name, " "@, "_"@))
}

/// The id that a name alone gives to a device.
pub fn named_device_id(name: &str, is_input: bool) -> (r: String)
    ensures
        r@ == spec_named_device_id(name@, is_input),
{
    let underscored = replace(name, " ", "_");
    let lower = to_lowercase(underscored.as_str());
    if is_input {
        String::from_str("input_").concat(lower.as_str())
    } else {
        String::from_str("output_").concat(lower.as_str())
    }
}

/// A text with `k` marks behind it. A mark is `_2`.
pub open spec fn with_marks(base: Seq<char>, k: nat) -> Seq<char>
    decreases k,
{
    if k == 0 {
        base
    } else {
        with_marks(base, (k - 1) as nat) + "_2"@
    }
}

/// `k` is the least number of marks with which `base` is not among `taken`.
pub open spec fn is_least_free(taken: Seq<Seq<char>>, base: Seq<char>, k: nat) -> bool {
    &&& !taken.contains(with_marks(base, k))
    &&& forall|j: nat| j < k ==> taken.contains(#[trigger] with_marks(base, j))
}

/// The id for `base` that is not among `taken`: `base` itself where it is
/// free, else `base` with the least number of marks that makes it free.
pub open spec fn spec_free_id(taken: Seq<Seq<char>>, base: Seq<char>) -> Seq<char> {
    with_marks(base, choose|k: nat| is_least_free(taken, base, k))
}

/// The length of the longest of the texts.
pub open spec fn longest(list: Seq<Seq<char>>) -> nat
    decreases list.len(),
{
    if list.len() == 0 {
        0
    } else if list.last().len() > longest(list.drop_last()) {
        list.last().len()
    } else {
        longest(list.drop_last())
    }
}

/// No text of a list is longer than the longest.
pub proof fn lemma_longest(list: Seq<Seq<char>>, i: int)
    requires
        0 <= i < list.len(),
    ensures
        list[i].len() <= longest(list),
    decreases list.len(),
{
    if i < list.len() - 1 {
        lemma_longest(list.drop_last(), i);
    }
}

/// A text with marks is two characters longer for every mark, and begins
/// with the text.
pub proof fn lemma_with_marks(base: Seq<char>, k: nat)
    ensures
        with_marks(base, k).len() == base.len() + 2 * k,
        is_prefix(base, with_marks(base, k)),
    decreases k,
{
    reveal_strlit("_2");
    if k > 0 {
        lemma_with_marks(base, (k - 1) as nat);
        assert(with_marks(base, k).subrange(0, base.len() as int) =~= with_marks(
            base,
            (k - 1) as nat,
        ).subrange(0, base.len() as int));
    } else {
        assert(base.subrange(0, base.len() as int) =~= base);
    }
}

/// The least number of marks is one number only.
pub proof fn lemma_least_free_is_unique(taken: Seq<Seq<char>>, base: Seq<char>, a: nat, b: nat)
    requires
        is_least_free(taken, base, a),
        is_least_free(taken, base, b),
    ensures
        a == b,
{
    if a < b {
        assert(taken.contains(with_marks(base, a)));
    } else if b < a {
        assert(taken.contains(with_marks(base, b)));
    }
}

/// How far a text of `len` characters is from being longer than every text
/// of a list whose longest has `most`.
pub open spec fn room_left(most: nat, len: nat) -> nat {
    if len <= most {
        (most + 2 - len) as nat
    } else {
        0
    }
}

/// An id for `base` that is not among `taken`.
pub fn free_id(taken: &Vec<String>, base: String) -> (r: String)
    ensures
        r@ == spec_free_id(texts(taken@), base@),
        exists|k: nat| is_least_free(texts(taken@), base@, k) && r@ == with_marks(base@, k),
        !texts(taken@).contains(r@),
        is_prefix(base@, r@),
{
    let ghost list = texts(taken@);
    let ghost origin = base@;
    let ghost mut k: nat = 0;
    let mut candidate = base;
    while list_contains(taken, candidate.as_str())
        invariant
            list == texts(taken@),
            candidate@ == with_marks(origin, k),
            forall|j: nat| j < k ==> list.contains(#[trigger] with_marks(origin, j)),
        decreases room_left(longest(list), candidate@.len()),
    {
        proof {
            let i = choose|i: int| 0 <= i < list.len() && list[i] == candidate@;
            lemma_longest(list, i);
            lemma_with_marks(origin, k);
            lemma_with_marks(origin, k + 1);
        }
        candidate.append("_2");
        proof {
            k = k + 1;
        }
    }
    proof {
        lemma_with_marks(origin, k);
        assert(is_least_free(list, origin, k));
        let chosen = choose|c: nat| is_least_free(list, origin, c);
        lemma_least_free_is_unique(list, origin, k, chosen);
    }
    candidate
}

/// Whether the ids are those that the names get, one after the other: each
/// name its own id where that id is still free, else that id with marks.
pub open spec fn are_named_ids(ids: Seq<Seq<char>>, names: Seq<Seq<char>>, is_input: bool) -> bool {
    &&& ids.len() == names.len()
    &&& forall|i: int|
        0 <= i < ids.len() ==> #[trigger] ids[i] == spec_free_id(
            ids.subrange(0, i),
            spec_named_device_id(names[i], is_input),
        )
}

/// Whether no two of the texts are the same.
pub open spec fn all_distinct(ids: Seq<Seq<char>>) -> bool {
    forall|i: int, j: int| 0 <= i < j < ids.len() ==> ids[i] != ids[j]
}

/// The ids of the devices of a platform that knows its devices by name, one
/// for each name and in the same order. No two ids are the same, also where
/// two devices have one name.
pub fn named_device_ids(names: &Vec<String>, is_input: bool) -> (r: Vec<String>)
    ensures
        are_named_ids(texts(r@), texts(names@), is_input),
        all_distinct(texts(r@)),
        r@.len() == names@.len(),
        forall|i: int|
            0 <= i < r@.len() ==> is_prefix(
                spec_named_device_id(names@[i]@, is_input),
                #[trigger] r@[i]@,
            ),
{
    let mut out: Vec<String> = Vec::new();
    let mut i: usize = 0;
    while i < names.len()
        invariant
            i <= names.len(),
            out@.len() == i,
            all_distinct(texts(out@)),
            forall|j: int|
                0 <= j < i ==> #[trigger] texts(out@)[j] == spec_free_id(
                    texts(out@).subrange(0, j),
                    spec_named_device_id(texts(names@)[j], is_input),
                ),
            forall|j: int|
                0 <= j < i ==> is_prefix(
                    spec_named_device_id(names@[j]@, is_input),
                    #[trigger] out@[j]@,
                ),
        decreases names.len() - i,
    {
        let ghost before = texts(out@);
        let base = named_device_id(names[i].as_str(), is_input);
        let id = free_id(&out, base);
        out.push(id);
        proof {
            let after = texts(out@);
            assert(after =~= before.push(id@));
            assert(after.subrange(0, i as int) =~= before);
            assert forall|j: int| 0 <= j < i + 1 implies #[trigger] after[j] == spec_free_id(
                after.subrange(0, j),
                spec_named_device_id(texts(names@)[j], is_input),
            ) by {
                if j < i {
                    assert(after.subrange(0, j) =~= before.subrange(0, j));
                    assert(after[j] == before[j]);
                }
            }
            assert forall|a: int, b: int| 0 <= a < b < after.len() implies after[a] != after[b] by {
                if b == i {
                    assert(before[a] == after[a]);
                    assert(before.contains(before[a]));
                } else {
                    assert(before[a] == after[a] && before[b] == after[b]);
                }
            }
        }
        i += 1;
    }
    out
}

/// What the system tells of one endpoint that is known by its name.
#[derive(Debug)]
pub struct NamedEndpoint {
    pub name: String,
    pub is_default: bool,
    pub sample_rate: u32,
    pub channels: u16,
}

/// The device for an endpoint that is known by its name, under the id
/// that was made for it.
pub open spec fn spec_device_to_loopback(
    id: Seq<char>,
    name: Seq<char>,
    is_default: bool,
    is_input: bool,
    sample_rate: u32,
    channels: u16,
) -> DeviceModel {
    DeviceModel {
        id,
        name: if !is_default {
            name
        } else if is_input {
            name + " (Default Input)"@
        } else {
            name + " (Default Output)"@
        },
        is_default,
        sample_rate,
        channels,
        format: "f32"@,
        device_type: if is_input {
            DeviceType::Capture
        } else {
            DeviceType::Render
        },
        loopback_method: if is_input {
            LoopbackMethod::CaptureDevice
        } else {
            LoopbackMethod::RenderLoopback
        },
    }
}

/// The device for an endpoint that is known by its name, under the id that
/// was made for it.
pub fn device_to_loopback(
    id: String,
    name: &str,
    is_default: bool,
    is_input: bool,
    sample_rate: u32,
    channels: u16,
) -> (r: AudioLoopbackDevice)
    ensures
        r@ == spec_device_to_loopback(id@, name@, is_default, is_input, sample_rate, channels),
{
    let shown = if !is_default {
        String::from_str(name)
    } else if is_input {
        String::from_str(name).concat(" (Default Input)")
    } else {
        String::from_str(name).concat(" (Default Output)")
    };
    AudioLoopbackDevice {
        id,
        name: shown,
        is_default,
        sample_rate,
        channels,
        format: String::from_str("f32"),
        device_type: if is_input {
            DeviceType::Capture
        } else {
            DeviceType::Render
        },
        loopback_method: if is_input {
            LoopbackMethod::CaptureDevice
        } else {
            LoopbackMethod::RenderLoopback
        },
    }
}

/// The names of a list of endpoints, in order.
pub open spec fn endpoint_names(endpoints: Seq<NamedEndpoint>) -> Seq<Seq<char>> {
    Seq::new(endpoints.len(), |i: int| endpoints[i].name@)
}

/// The ids of a list of devices, in order.
pub open spec fn device_ids(devices: Seq<DeviceModel>) -> Seq<Seq<char>> {
    Seq::new(devices.len(), |i: int| devices[i].id)
}

/// The devices of a platform that knows its devices by name: one for each
/// endpoint and in the same order, so that the device at an index is opened
/// through the endpoint at that index. The ids are made for the whole list,
/// and no two are the same.
pub fn list_named_devices(endpoints: &Vec<NamedEndpoint>, is_input: bool) -> (r: Vec<
    AudioLoopbackDevice,
>)
    ensures
        r@.len() == endpoints@.len(),
        are_named_ids(device_ids(device_models(r@)), endpoint_names(endpoints@), is_input),
        all_distinct(device_ids(device_models(r@))),
        forall|i: int|
            0 <= i < r@.len() ==> is_first_with_id(
                device_models(r@),
                (#[trigger] device_models(r@)[i]).id,
                i,
            ),
        forall|i: int|
            0 <= i < r@.len() ==> (#[trigger] r@[i])@ == spec_device_to_loopback(
                r@[i].id@,
                endpoints@[i].name@,
                endpoints@[i].is_default,
                is_input,
                endpoints@[i].sample_rate,
                endpoints@[i].channels,
            ),
{
    let mut names: Vec<String> = Vec::new();
    let mut n: usize = 0;
    while n < endpoints.len()
        invariant
            n <= endpoints.len(),
            names@.len() == n,
            forall|j: int| 0 <= j < n ==> (#[trigger] names@[j])@ == endpoints@[j].name@,
        decreases endpoints.len() - n,
    {
        names.push(endpoints[n].name.clone());
        n += 1;
    }
    assert(texts(names@) =~= endpoint_names(endpoints@));
    let ids = named_device_ids(&names, is_input);
    let mut out: Vec<AudioLoopbackDevice> = Vec::new();
    let mut i: usize = 0;
    while i < endpoints.len()
        invariant
            i <= endpoints.len(),
            ids@.len() == endpoints@.len(),
            out@.len() == i,
            forall|j: int| 0 <= j < i ==> (#[trigger] out@[j]).id@ == ids@[j]@,
            forall|j: int|
                0 <= j < i ==> (#[trigger] out@[j])@ == spec_device_to_loopback(
                    out@[j].id@,
                    endpoints@[j].name@,
                    endpoints@[j].is_default,
                    is_input,
                    endpoints@[j].sample_rate,
                    endpoints@[j].channels,
                ),
        decreases endpoints.len() - i,
    {
        let e = &endpoints[i];
        let d = device_to_loopback(
            ids[i].clone(),
            e.name.as_str(),
            e.is_default,
            is_input,
            e.sample_rate,
            e.channels,
        );
        out.push(d);
        i += 1;
    }
    assert(device_ids(device_models(out@)) =~= texts(ids@));
    proof {
        let models = device_models(out@);
        assert forall|a: int, b: int| 0 <= a < b < models.len() implies (#[trigger] models[a]).id
            != (#[trigger] models[b]).id by {
            assert(device_ids(models)[a] != device_ids(models)[b]);
        }
        assert forall|i: int| 0 <= i < out@.len() implies is_first_with_id(
            models,
            (#[trigger] models[i]).id,
            i,
        ) by {
            lemma_listed_device_is_found_by_its_id(models, i);
        }
    }
    out
}

} // verus!
