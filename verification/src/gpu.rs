//! What a GPU device is asked for.

use vstd::prelude::*;

verus! {

/// `wgpu::Features`: a set of optional features of a GPU.
#[verifier::external_type_specification]
#[verifier::external_body]
pub struct ExFeatures(wgpu::Features);

/// What a `wgpu::Features` holds: the positions of its set bits, those of its
/// first word from 0 on and those of its second from 64 on.
pub uninterp spec fn feature_set(features: wgpu::Features) -> Set<int>;

/// The operator `-` of `wgpu::Features`: the features of `a` that are not in
/// `b`.
#[verifier::external_body]
fn features_without(a: wgpu::Features, b: wgpu::Features) -> (rest: wgpu::Features)
    ensures
        feature_set(rest) == feature_set(a).difference(feature_set(b)),
{
    a - b
}

/// The operator `&` of `wgpu::Features`: the features that are in both.
#[verifier::external_body]
fn features_in_both(a: wgpu::Features, b: wgpu::Features) -> (common: wgpu::Features)
    ensures
        feature_set(common) == feature_set(a).intersect(feature_set(b)),
{
    a & b
}

/// The operator `|` of `wgpu::Features`: the features that are in either.
#[verifier::external_body]
fn features_in_either(a: wgpu::Features, b: wgpu::Features) -> (joined: wgpu::Features)
    ensures
        feature_set(joined) == feature_set(a).union(feature_set(b)),
{
    a | b
}

/// `wgpu::Features::is_empty`: whether no feature is in the set.
#[verifier::external_body]
fn no_features(features: wgpu::Features) -> (none: bool)
    ensures
        none == (feature_set(features) == Set::<int>::empty()),
{
    features.is_empty()
}

/// The features to request: all that are required, and the optional ones that
/// the adapter has.
pub open spec fn granted(required: Set<int>, optional: Set<int>, has: Set<int>) -> Set<int> {
    required.union(optional.intersect(has))
}

/// Which adapter is preferred.
#[derive(Clone, Copy, Debug, PartialEq, Eq, Structural)]
pub enum PowerPreference {
    /// The fastest, whatever power it takes.
    HighPerformance,
}

/// The adapter to ask an instance for.
#[derive(Clone, Copy, Debug, PartialEq, Eq, Structural)]
pub struct AdapterRequest {
    pub power_preference: PowerPreference,
    /// Whether only a software adapter will do.
    pub force_fallback: bool,
}

/// The limits of a device.
#[derive(Clone, Copy, Debug, PartialEq, Eq, Structural)]
pub enum DeviceLimits {
    /// All that the adapter offers. The default limits would cap storage
    /// buffers at 128 MiB and workgroup storage at 16 KiB.
    OfAdapter,
}

/// What a device's memory is managed for.
#[derive(Clone, Copy, Debug, PartialEq, Eq, Structural)]
pub enum MemoryHints {
    Performance,
}

/// Whether a device may use features that are still experimental.
#[derive(Clone, Copy, Debug, PartialEq, Eq, Structural)]
pub enum ExperimentalFeatures {
    Disabled,
}

/// Whether the calls of a device are traced.
#[derive(Clone, Copy, Debug, PartialEq, Eq, Structural)]
pub enum Trace {
    Off,
}

/// The device to ask an adapter for.
#[derive(Clone, Copy, Debug)]
pub struct DeviceRequest {
    pub label: &'static str,
    pub features: wgpu::Features,
    pub limits: DeviceLimits,
    pub memory_hints: MemoryHints,
    pub experimental: ExperimentalFeatures,
    pub trace: Trace,
}

impl DeviceRequest {
    /// Whether this asks for a device with `features`, and otherwise as every
    /// request does.
    pub open spec fn asks_for(self, features: Set<int>) -> bool {
        &&& self.label@ == "supah nice graphics device"@
        &&& feature_set(self.features) == features
        &&& self.limits == DeviceLimits::OfAdapter
        &&& self.memory_hints == MemoryHints::Performance
        &&& self.experimental == ExperimentalFeatures::Disabled
        &&& self.trace == Trace::Off
    }
}

/// Why no device could be set up.
#[derive(Clone, Copy, Debug)]
pub enum SetupError {
    /// The instance offered no adapter.
    NoAdapter,
    /// The adapter does not support these required features.
    MissingFeatures { missing: wgpu::Features },
    /// The adapter did not give a device.
    DeviceFailed,
}

/// A context to be set up: the features that it cannot do without, and those
/// that it takes where the adapter has them.
///
/// Setting it up talks to the driver twice. `request_adapter` says what adapter
/// to ask for; the answer goes to `request_device`, which says what device to
/// ask for; the answer to that goes to `finish`.
#[derive(Clone, Copy, Debug)]
pub struct GpuContext {
    pub required: wgpu::Features,
    pub optional: wgpu::Features,
}

impl GpuContext {
    pub fn new(required: wgpu::Features, optional: wgpu::Features) -> (context: GpuContext)
        ensures
            context.required == required,
            context.optional == optional,
    {
        GpuContext { required, optional }
    }

    /// The adapter to ask for.
    pub fn request_adapter(&self) -> (request: AdapterRequest)
        ensures
            request == (AdapterRequest {
                power_preference: PowerPreference::HighPerformance,
                force_fallback: false,
            }),
    {
        AdapterRequest { power_preference: PowerPreference::HighPerformance, force_fallback: false }
    }

    /// The device to ask for, given the features that the adapter supports
    /// (none if there is no adapter).
    pub fn request_device(&self, available: Option<wgpu::Features>) -> (request: Result<
        DeviceRequest,
        SetupError,
    >)
        ensures
            available is None <==> request == Err::<DeviceRequest, SetupError>(
                SetupError::NoAdapter,
            ),
            available matches Some(has) ==> match request {
                Ok(device) => {
                    &&& feature_set(self.required).subset_of(feature_set(has))
                    &&& device.asks_for(
                        granted(
                            feature_set(self.required),
                            feature_set(self.optional),
                            feature_set(has),
                        ),
                    )
                },
                Err(SetupError::MissingFeatures { missing }) => {
                    &&& !feature_set(self.required).subset_of(feature_set(has))
                    &&& feature_set(missing) == feature_set(self.required).difference(
                        feature_set(has),
                    )
                },
                Err(_) => false,
            },
    {
        let has: wgpu::Features = match available {
            Some(has) => has,
            None => {
                return Err(SetupError::NoAdapter);
            },
        };
        let missing: wgpu::Features = features_without(self.required, has);
        if !no_features(missing) {
            proof {
                if feature_set(self.required).subset_of(feature_set(has)) {
                    assert(feature_set(missing) =~= Set::<int>::empty());
                }
            }
            return Err(SetupError::MissingFeatures { missing });
        }
        proof {
            assert forall|f: int| feature_set(self.required).contains(f) implies feature_set(
                has,
            ).contains(f) by {
                assert(!feature_set(missing).contains(f));
            }
        }
        Ok(
            DeviceRequest {
                label: "supah nice graphics device",
                features: features_in_either(self.required, features_in_both(self.optional, has)),
                limits: DeviceLimits::OfAdapter,
                memory_hints: MemoryHints::Performance,
                experimental: ExperimentalFeatures::Disabled,
                trace: Trace::Off,
            },
        )
    }

    /// The outcome of the setup, given whether the adapter gave a device.
    pub fn finish(&self, created: bool) -> (outcome: Result<(), SetupError>)
        ensures
            outcome == (if created {
                Ok::<(), SetupError>(())
            } else {
                Err(SetupError::DeviceFailed)
            }),
    {
        if created {
            Ok(())
        } else {
            Err(SetupError::DeviceFailed)
        }
    }
}

/// A device is never asked for what the adapter lacks, always for all that is
/// required, and for nothing that was neither required nor optional; where the
/// adapter has every optional feature, it is asked for all of them.
pub proof fn law_request_is_supported(required: Set<int>, optional: Set<int>, has: Set<int>)
    requires
        required.subset_of(has),
    ensures
        granted(required, optional, has).subset_of(has),
        required.subset_of(granted(required, optional, has)),
        granted(required, optional, has).subset_of(required.union(optional)),
        optional.subset_of(has) ==> granted(required, optional, has) == required.union(optional),
{
    if optional.subset_of(has) {
        assert(granted(required, optional, has) =~= required.union(optional));
    }
}

/// A feature is requested exactly when it is required, or optional and there.
pub proof fn law_feature_is_requested_iff(
    required: Set<int>,
    optional: Set<int>,
    has: Set<int>,
    feature: int,
)
    ensures
        granted(required, optional, has).contains(feature) <==> required.contains(feature) || (
        optional.contains(feature) && has.contains(feature)),
{
}

/// Whatever its features, a device is asked for with all that the adapter
/// offers and for performance, without experiments or a trace.
pub proof fn law_device_takes_what_the_adapter_offers(request: DeviceRequest, features: Set<int>)
    requires
        request.asks_for(features),
    ensures
        request.limits == DeviceLimits::OfAdapter,
        request.memory_hints == MemoryHints::Performance,
        request.experimental == ExperimentalFeatures::Disabled,
        request.trace == Trace::Off,
        request.label@ == "supah nice graphics device"@,
        forall|f: int| #[trigger] feature_set(request.features).contains(f) == features.contains(f),
{
}

} // verus!
