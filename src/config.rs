use vstd::prelude::*;

verus! {

/// Thumbnail bound used when the configuration names none.
pub const DEFAULT_RESOLUTION: u32 = 720;

/// Listen address as written in the configuration file.
#[derive(Clone, Debug)]
pub struct NetworkConfigRaw {
    pub addr: [u8; 4],
    pub port: u16,
}

/// Thumbnail settings: the bound applied to both width and height.
#[derive(Clone, Debug)]
pub struct ImageConfig {
    pub resolution: u32,
}

impl Default for ImageConfig {
    fn default() -> (r: ImageConfig)
        ensures
            r.resolution == DEFAULT_RESOLUTION,
    {
        ImageConfig { resolution: DEFAULT_RESOLUTION }
    }
}

/// The configuration as read, before validation.
#[derive(Clone, Debug)]
pub struct MediaConfigRaw {
    pub media: String,
    pub network: NetworkConfigRaw,
    pub image: ImageConfig,
}

/// A validated configuration: the thumbnail bound is positive.
#[derive(Clone, Debug)]
pub struct MediaConfig {
    pub media: String,
    pub network: NetworkConfigRaw,
    pub image: ImageConfig,
}

/// Why a raw configuration was rejected.
#[derive(Clone, Copy, Debug, PartialEq, Eq)]
pub enum ConfigError {
    ZeroResolution,
}

impl MediaConfig {
    pub open spec fn wf(&self) -> bool {
        self.image.resolution > 0
    }

    /// Validates a raw configuration, keeping every field as read.
    pub fn new(raw: MediaConfigRaw) -> (r: Result<MediaConfig, ConfigError>)
        ensures
            raw.image.resolution == 0 <==> r == Err::<MediaConfig, ConfigError>(
                ConfigError::ZeroResolution,
            ),
            r is Ok ==> r->Ok_0.wf() && r->Ok_0.media == raw.media && r->Ok_0.network
                == raw.network && r->Ok_0.image == raw.image,
    {
        if raw.image.resolution == 0 {
            Err(ConfigError::ZeroResolution)
        } else {
            Ok(MediaConfig { media: raw.media, network: raw.network, image: raw.image })
        }
    }
}

} // verus!
