use vstd::prelude::*;
use crate::names::{
    names_of, portability_extension, portability_extension_spec, portability_flag,
    portability_flag_spec, properties2_extension, properties2_extension_spec, validation_layer,
    validation_layer_spec,
};
use crate::version::{portability_macos_version, portability_threshold, version_at_least, DriverVersion};

verus! {

/// Why bringing up the instance failed.
#[derive(Clone, Copy, Debug, PartialEq, Eq, Structural)]
pub enum BootstrapError {
    /// The driver library, or one of its global functions, could not be resolved.
    LoaderError,
    /// Diagnostics are enabled but the driver does not offer the validation layer.
    MissingValidationLayer,
    /// The driver refused to create the instance, with its result code.
    InstanceCreationError(i32),
}

/// The build-time switches that negotiation depends on.
#[derive(Clone, Copy, Debug, PartialEq, Eq, Structural)]
pub struct BuildConfig {
    /// Whether the validation layer is requested (and required).
    pub validation_enabled: bool,
    /// Whether the program runs on macOS, where drivers may need the portability shim.
    pub macos: bool,
}

/// The layers, extensions and creation flags to create the instance with.
#[derive(Debug)]
pub struct NegotiatedConfig {
    pub layers: Vec<String>,
    pub extensions: Vec<String>,
    pub flags: u32,
}

/// The value of a [`NegotiatedConfig`], names taken as character sequences.
pub struct NegotiatedView {
    pub layers: Seq<Seq<char>>,
    pub extensions: Seq<Seq<char>>,
    pub flags: u32,
}

impl View for NegotiatedConfig {
    type V = NegotiatedView;

    open spec fn view(&self) -> NegotiatedView {
        NegotiatedView {
            layers: names_of(self.layers@),
            extensions: names_of(self.extensions@),
            flags: self.flags,
        }
    }
}

/// Layer negotiation lets creation proceed: no validation is asked for, or the
/// driver offers it.
pub open spec fn layer_check_passes(validation_enabled: bool, available: Seq<Seq<char>>) -> bool {
    !validation_enabled || available.contains(validation_layer_spec())
}

/// The layers requested for a build.
pub open spec fn requested_layers(validation_enabled: bool) -> Seq<Seq<char>> {
    if validation_enabled {
        seq![validation_layer_spec()]
    } else {
        Seq::empty()
    }
}

/// The portability shim is needed: on macOS, from driver version 1.3.216 on.
pub open spec fn shim_applies(macos: bool, v: DriverVersion) -> bool {
    macos && version_at_least(v, portability_threshold())
}

/// The extensions requested: those the window needs, then the two portability
/// extensions where the shim applies.
pub open spec fn negotiated_extensions(required: Seq<Seq<char>>, shim: bool) -> Seq<Seq<char>> {
    if shim {
        required + seq![properties2_extension_spec(), portability_extension_spec()]
    } else {
        required
    }
}

/// The instance creation flags: portability enumeration where the shim applies.
pub open spec fn negotiated_flags(shim: bool) -> u32 {
    if shim {
        portability_flag_spec()
    } else {
        0
    }
}

/// The whole negotiation, from what the driver and the window report.
pub open spec fn negotiation(
    config: BuildConfig,
    available: Seq<Seq<char>>,
    required: Seq<Seq<char>>,
    driver_version: DriverVersion,
) -> Result<NegotiatedView, BootstrapError> {
    if layer_check_passes(config.validation_enabled, available) {
        let shim = shim_applies(config.macos, driver_version);
        Ok(
            NegotiatedView {
                layers: requested_layers(config.validation_enabled),
                extensions: negotiated_extensions(required, shim),
                flags: negotiated_flags(shim),
            },
        )
    } else {
        Err(BootstrapError::MissingValidationLayer)
    }
}

/// Creation may proceed exactly when every requested layer is among the
/// available ones; otherwise negotiation fails with `MissingValidationLayer`.
pub proof fn lemma_layer_superset(validation_enabled: bool, available: Seq<Seq<char>>)
    ensures
        layer_check_passes(validation_enabled, available) <==> requested_layers(
            validation_enabled,
        ).to_set().subset_of(available.to_set()),
        !layer_check_passes(validation_enabled, available) ==> negotiation(
            BuildConfig { validation_enabled, macos: false },
            available,
            Seq::empty(),
            portability_threshold(),
        ) == Err::<NegotiatedView, BootstrapError>(BootstrapError::MissingValidationLayer),
{
    let req = requested_layers(validation_enabled);
    let v = validation_layer_spec();
    assert(available.to_set().contains(v) == available.contains(v));
    if validation_enabled {
        assert(req.to_set() =~= set![v]) by {
            assert(req[0] == v);
        }
    } else {
        assert(req.to_set() =~= Set::empty());
    }
}

/// Negotiation is a function of its inputs: two runs on the same set of
/// available layers (in any order, with any repeats), the same required
/// extensions and, on macOS, the same driver version, give the same result.
pub proof fn lemma_negotiation_is_pure(
    config: BuildConfig,
    available1: Seq<Seq<char>>,
    available2: Seq<Seq<char>>,
    required: Seq<Seq<char>>,
    version1: DriverVersion,
    version2: DriverVersion,
)
    requires
        available1.to_set() == available2.to_set(),
        config.macos ==> version1 == version2,
    ensures
        negotiation(config, available1, required, version1) == negotiation(
            config,
            available2,
            required,
            version2,
        ),
{
    let v = validation_layer_spec();
    assert(available1.to_set().contains(v) == available1.contains(v));
    assert(available2.to_set().contains(v) == available2.contains(v));
}

/// The portability shim (two extensions and a flag) is added exactly on macOS
/// from driver version 1.3.216 on: not for 1.3.215, yes for 1.3.216, and once
/// a version needs it every later one does.
pub proof fn lemma_portability_shim(
    macos: bool,
    v: DriverVersion,
    later: DriverVersion,
    required: Seq<Seq<char>>,
)
    ensures
        shim_applies(macos, v) <==> (macos && version_at_least(
            v,
            DriverVersion { major: 1, minor: 3, patch: 216 },
        )),
        !shim_applies(macos, DriverVersion { major: 1, minor: 3, patch: 215 }),
        shim_applies(macos, DriverVersion { major: 1, minor: 3, patch: 216 }) == macos,
        shim_applies(macos, v) && version_at_least(later, v) ==> shim_applies(macos, later),
        shim_applies(macos, v) ==> negotiated_extensions(required, true) == required + seq![
            properties2_extension_spec(),
            portability_extension_spec(),
        ] && negotiated_flags(true) == portability_flag_spec(),
        !shim_applies(macos, v) ==> negotiated_extensions(required, false) == required
            && negotiated_flags(false) == 0,
{
}

/// Whether `name` is among `names`.
pub fn contains_name(names: &Vec<String>, name: &String) -> (r: bool)
    ensures
        r == names_of(names@).contains(name@),
{
    let mut i: usize = 0;
    while i < names.len()
        invariant
            0 <= i <= names@.len(),
            forall|j: int| 0 <= j < i ==> names@[j]@ != name@,
        decreases names@.len() - i,
    {
        if names[i] == *name {
            assert(names_of(names@)[i as int] == name@);
            return true;
        }
        i = i + 1;
    }
    assert(!names_of(names@).contains(name@)) by {
        if names_of(names@).contains(name@) {
            let k = choose|k: int| 0 <= k < names_of(names@).len() && names_of(names@)[k] == name@;
            assert(names@[k]@ == name@);
        }
    }
    false
}

/// Decides the layers to enable from those the driver offers: the validation
/// layer when diagnostics are enabled, and it must then be offered; none otherwise.
pub fn negotiate_layers(available: &Vec<String>, validation_enabled: bool) -> (r: Result<
    Vec<String>,
    BootstrapError,
>)
    ensures
        match r {
            Ok(layers) => layer_check_passes(validation_enabled, names_of(available@))
                && names_of(layers@) == requested_layers(validation_enabled),
            Err(e) => !layer_check_passes(validation_enabled, names_of(available@)) && e
                == BootstrapError::MissingValidationLayer,
        },
{
    let mut layers: Vec<String> = Vec::new();
    if validation_enabled {
        let name = validation_layer();
        if !contains_name(available, &name) {
            return Err(BootstrapError::MissingValidationLayer);
        }
        layers.push(name);
        assert(names_of(layers@) =~= requested_layers(validation_enabled));
    } else {
        assert(names_of(layers@) =~= requested_layers(validation_enabled));
    }
    Ok(layers)
}

/// Whether the portability shim applies to this platform and driver version.
pub fn needs_portability_shim(macos: bool, driver_version: &DriverVersion) -> (r: bool)
    ensures
        r == shim_applies(macos, *driver_version),
{
    macos && driver_version.at_least(&portability_macos_version())
}

/// Adds the portability extensions to `extensions` where the shim applies, and
/// returns the creation flags.
pub fn extend_for_portability(extensions: &mut Vec<String>, shim: bool) -> (flags: u32)
    ensures
        names_of(final(extensions)@) == negotiated_extensions(names_of(old(extensions)@), shim),
        flags == negotiated_flags(shim),
{
    if shim {
        extensions.push(properties2_extension());
        extensions.push(portability_extension());
        assert(names_of(extensions@) =~= negotiated_extensions(names_of(old(extensions)@), shim));
        portability_flag()
    } else {
        0
    }
}

/// Negotiates layers, extensions and flags from the layers the driver offers,
/// the extensions the window needs and the driver's version.
pub fn negotiate(
    config: BuildConfig,
    available: &Vec<String>,
    required: &Vec<String>,
    driver_version: DriverVersion,
) -> (r: Result<NegotiatedConfig, BootstrapError>)
    ensures
        match r {
            Ok(c) => negotiation(config, names_of(available@), names_of(required@), driver_version)
                == Ok::<NegotiatedView, BootstrapError>(c@),
            Err(e) => negotiation(config, names_of(available@), names_of(required@), driver_version)
                == Err::<NegotiatedView, BootstrapError>(e),
        },
{
    let layers = match negotiate_layers(available, config.validation_enabled) {
        Ok(l) => l,
        Err(e) => return Err(e),
    };
    let mut extensions = required.clone();
    assert(names_of(extensions@) =~= names_of(required@));
    let shim = needs_portability_shim(config.macos, &driver_version);
    let flags = extend_for_portability(&mut extensions, shim);
    Ok(NegotiatedConfig { layers, extensions, flags })
}

} // verus!
