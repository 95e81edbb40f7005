//! The session descriptor and its validation.

use crate::error::ConfigFault;
use crate::error::Error;
use crate::paths::path_components;
use crate::paths::path_stays_inside;
use crate::paths::stays_inside;
use vstd::prelude::*;

verus! {

/// A named group of source files that is uploaded as one artifact.
#[derive(Clone, Debug, PartialEq, Eq)]
pub struct BundleSpec {
    pub bundle_name: String,
    /// The directory of the sources, relative to the session directory.
    pub src_dir: String,
    /// The glob patterns that pick the sources.
    pub src_globs: Vec<String>,
    /// The extension of the artifact.
    pub dst_ext: String,
}

/// The mathematical value of a [`BundleSpec`].
pub ghost struct BundleSpecView {
    pub bundle_name: Seq<char>,
    pub src_dir: Seq<char>,
    pub src_globs: Seq<Seq<char>>,
    pub dst_ext: Seq<char>,
}

impl View for BundleSpec {
    type V = BundleSpecView;

    open spec fn view(&self) -> BundleSpecView {
        BundleSpecView {
            bundle_name: self.bundle_name@,
            src_dir: self.src_dir@,
            src_globs: self.src_globs@.map_values(|g: String| g@),
            dst_ext: self.dst_ext@,
        }
    }
}

/// The descriptor of a session. It is read once when the session is opened
/// and does not change while the session lives.
#[derive(Clone, Debug, PartialEq, Eq)]
pub struct Config {
    pub name: String,
    /// The instructions file, relative to the session directory.
    pub instructions_file: String,
    /// The embeddings file, relative to the session directory.
    pub embeddings_file: String,
    pub file_bundles: Vec<BundleSpec>,
}

/// The mathematical value of a [`Config`].
pub ghost struct ConfigView {
    pub name: Seq<char>,
    pub instructions_file: Seq<char>,
    pub embeddings_file: Seq<char>,
    pub file_bundles: Seq<BundleSpecView>,
}

impl View for Config {
    type V = ConfigView;

    open spec fn view(&self) -> ConfigView {
        ConfigView {
            name: self.name@,
            instructions_file: self.instructions_file@,
            embeddings_file: self.embeddings_file@,
            file_bundles: self.file_bundles@.map_values(|b: BundleSpec| b@),
        }
    }
}

/// A bundle is sound when it names at least one glob pattern and its source
/// directory resolves to a place under the session directory.
pub open spec fn bundle_ok(bundle: BundleSpecView) -> bool {
    bundle.src_globs.len() > 0 && stays_inside(path_components(bundle.src_dir))
}

/// What is wrong with an unsound bundle at position `index`: a missing glob
/// is reported before an escaping source directory.
pub open spec fn bundle_fault(bundle: BundleSpecView, index: usize) -> ConfigFault {
    if bundle.src_globs.len() == 0 {
        ConfigFault::NoGlobs(index)
    } else {
        ConfigFault::SourceDirEscapes(index)
    }
}

/// A descriptor is sound when each of its bundles is, and their number fits
/// the counter of uploads.
pub open spec fn config_ok(config: ConfigView) -> bool {
    &&& config.file_bundles.len() <= u32::MAX
    &&& forall|i: int| 0 <= i < config.file_bundles.len() ==> bundle_ok(config.file_bundles[i])
}

/// The bundle at position `i` is the first unsound one.
pub open spec fn first_fault_at(config: ConfigView, i: int) -> bool {
    &&& 0 <= i < config.file_bundles.len()
    &&& !bundle_ok(config.file_bundles[i])
    &&& forall|j: int| 0 <= j < i ==> bundle_ok(config.file_bundles[j])
}

/// `e` is the error that an unsound descriptor is refused with: too many
/// bundles, or else the first unsound bundle with what is wrong with it.
pub open spec fn is_config_fault(config: ConfigView, e: Error) -> bool {
    ||| (config.file_bundles.len() > u32::MAX && e == Error::Config(ConfigFault::TooManyBundles))
    ||| exists|i: int|
        {
            &&& config.file_bundles.len() <= u32::MAX
            &&& first_fault_at(config, i)
            &&& e == Error::Config(bundle_fault(config.file_bundles[i], i as usize))
        }
}

/// Checks one bundle against [`bundle_ok`].
pub fn check_bundle(bundle: &BundleSpec) -> (ok: bool)
    ensures
        ok == bundle_ok(bundle@),
{
    bundle.src_globs.len() > 0 && path_stays_inside(bundle.src_dir.as_str())
}

/// Checks a descriptor. It is accepted exactly when it is sound. Otherwise
/// the error names the first unsound bundle and what is wrong with it, or
/// says that there are too many bundles.
pub fn validate(config: &Config) -> (checked: Result<(), Error>)
    ensures
        checked is Ok <==> config_ok(config@),
        checked matches Err(e) ==> is_config_fault(config@, e),
{
    if config.file_bundles.len() > 0xffff_ffff {
        return Err(Error::Config(ConfigFault::TooManyBundles));
    }
    let mut i: usize = 0;
    while i < config.file_bundles.len()
        invariant
            i <= config.file_bundles.len() <= u32::MAX,
            forall|j: int| 0 <= j < i ==> bundle_ok(config@.file_bundles[j]),
        decreases config.file_bundles.len() - i,
    {
        let bundle = &config.file_bundles[i];
        assert(config@.file_bundles[i as int] == bundle@);
        if bundle.src_globs.len() == 0 {
            assert(first_fault_at(config@, i as int));
            return Err(Error::Config(ConfigFault::NoGlobs(i)));
        }
        if !path_stays_inside(bundle.src_dir.as_str()) {
            assert(first_fault_at(config@, i as int));
            return Err(Error::Config(ConfigFault::SourceDirEscapes(i)));
        }
        i += 1;
    }
    Ok(())
}

/// Takes the descriptor as it was read from the session directory, or the
/// reason why it could not be read, and checks it. The descriptor comes out
/// unchanged exactly when it was read and is sound. A descriptor that could
/// not be read is refused with the reason; an unsound one as [`validate`]
/// refuses it.
pub fn load(read: Result<Config, String>) -> (loaded: Result<Config, Error>)
    ensures
        loaded is Ok <==> (read matches Ok(config) && config_ok(config@)),
        loaded matches Ok(config) ==> read == Ok::<Config, String>(config),
        loaded matches Err(e) ==> match read {
            Ok(config) => is_config_fault(config@, e),
            Err(reason) => e == Error::Config(ConfigFault::Unreadable(reason)),
        },
{
    match read {
        Ok(config) => match validate(&config) {
            Ok(_) => Ok(config),
            Err(e) => Err(e),
        },
        Err(reason) => Err(Error::Config(ConfigFault::Unreadable(reason))),
    }
}

} // verus!
