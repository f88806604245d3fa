//! The externally supplied, session-immutable configuration: the audio
//! thresholds, the grid layout, the sprite lists and the screen geometry.

use vstd::prelude::*;
use crate::numbers::TwoInts;
use crate::text::str_eq;

verus! {

/// Magnitude above this counts as "speaking" when no threshold is configured.
pub const DEFAULT_MAGNITUDE_THRESHOLD: i32 = 6;

/// Ceiling applied to every reported magnitude when none is configured.
pub const DEFAULT_MAX_MAGNITUDE: i32 = 50;

/// The two knobs of the voice-activity pipeline.  Immutable for the lifetime
/// of an audio session.
#[derive(Clone, Copy, Debug, PartialEq, Eq, Structural)]
pub struct AudioConfig {
    /// A block whose magnitude exceeds this is "speaking".
    pub magnitude_threshold: i32,
    /// Reported magnitudes are clamped to this ceiling.
    pub max_magnitude: i32,
}

impl AudioConfig {
    pub fn new(magnitude_threshold: i32, max_magnitude: i32) -> (r: Self)
        ensures
            r == (AudioConfig { magnitude_threshold, max_magnitude }),
    {
        Self { magnitude_threshold, max_magnitude }
    }

    pub fn magnitude_threshold(&self) -> (r: i32)
        ensures
            r == self.magnitude_threshold,
    {
        self.magnitude_threshold
    }

    pub fn max_magnitude(&self) -> (r: i32)
        ensures
            r == self.max_magnitude,
    {
        self.max_magnitude
    }
}

impl Default for AudioConfig {
    fn default() -> (r: Self)
        ensures
            r == (AudioConfig {
                magnitude_threshold: DEFAULT_MAGNITUDE_THRESHOLD,
                max_magnitude: DEFAULT_MAX_MAGNITUDE,
            }),
    {
        Self {
            magnitude_threshold: DEFAULT_MAGNITUDE_THRESHOLD,
            max_magnitude: DEFAULT_MAX_MAGNITUDE,
        }
    }
}

/// The screen size and the per-platform cursor offsets, keyed by platform
/// name.  The host looks its own platform up once at start-up.
#[derive(Debug)]
pub struct ScreenInformation {
    pub size: TwoInts,
    pub modifiers: Vec<(String, TwoInts)>,
}

/// The offset recorded for platform `os`: the first entry whose key matches,
/// or the zero offset when none does.
pub open spec fn spec_modifier(pairs: Seq<(String, TwoInts)>, os: Seq<char>) -> TwoInts
    decreases pairs.len(),
{
    if pairs.len() == 0 {
        TwoInts { x: 0, y: 0 }
    } else if pairs[0].0@ == os {
        pairs[0].1
    } else {
        spec_modifier(pairs.skip(1), os)
    }
}

impl ScreenInformation {
    pub fn new(size: TwoInts, modifiers: Vec<(String, TwoInts)>) -> (r: Self)
        ensures
            r.size == size,
            r.modifiers == modifiers,
    {
        Self { size, modifiers }
    }

    pub fn size(&self) -> (r: TwoInts)
        ensures
            r == self.size,
    {
        self.size
    }

    /// The cursor offset for platform `os`; platforms without an entry get the
    /// zero offset.
    pub fn modifier(&self, os: &str) -> (r: TwoInts)
        ensures
            r == spec_modifier(self.modifiers@, os@),
    {
        let n = self.modifiers.len();
        let mut i: usize = 0;
        proof {
            assert(self.modifiers@.skip(0) =~= self.modifiers@);
        }
        while i < n
            invariant
                i <= n,
                n == self.modifiers@.len(),
                spec_modifier(self.modifiers@, os@) == spec_modifier(
                    self.modifiers@.skip(i as int),
                    os@,
                ),
            decreases n - i,
        {
            proof {
                assert(self.modifiers@.skip(i as int)[0] == self.modifiers@[i as int]);
            }
            if str_eq(self.modifiers[i].0.as_str(), os) {
                return self.modifiers[i].1;
            }
            proof {
                assert(self.modifiers@.skip(i as int).skip(1) =~= self.modifiers@.skip(
                    i as int + 1,
                ));
            }
            i = i + 1;
        }
        TwoInts { x: 0, y: 0 }
    }
}

/// Everything the host reads from its configuration file, as plain values.
#[derive(Debug)]
pub struct Config {
    pub audio: AudioConfig,
    pub sections: (i32, i32),
    pub idle_images: Vec<String>,
    pub speaking_images: Vec<String>,
    pub screen_information: ScreenInformation,
}

impl Config {
    /// The grid layout is sane: non-negative section counts whose product
    /// stays representable.
    pub open spec fn wf(&self) -> bool {
        &&& 0 <= self.sections.0
        &&& 0 <= self.sections.1
        &&& self.sections.0 * self.sections.1 <= i32::MAX
    }

    pub fn new(
        audio: AudioConfig,
        sections: (i32, i32),
        idle_images: Vec<String>,
        speaking_images: Vec<String>,
        screen_information: ScreenInformation,
    ) -> (r: Self)
        requires
            0 <= sections.0,
            0 <= sections.1,
            sections.0 * sections.1 <= i32::MAX,
        ensures
            r.audio == audio,
            r.sections == sections,
            r.idle_images == idle_images,
            r.speaking_images == speaking_images,
            r.screen_information == screen_information,
            r.wf(),
    {
        Self { audio, sections, idle_images, speaking_images, screen_information }
    }

    pub fn audio(&self) -> (r: AudioConfig)
        ensures
            r == self.audio,
    {
        self.audio
    }

    pub fn sections(&self) -> (r: (i32, i32))
        ensures
            r == self.sections,
    {
        self.sections
    }

    pub fn idle_images(&self) -> (r: &Vec<String>)
        ensures
            r == &self.idle_images,
    {
        &self.idle_images
    }

    pub fn speaking_images(&self) -> (r: &Vec<String>)
        ensures
            r == &self.speaking_images,
    {
        &self.speaking_images
    }

    pub fn screen_information(&self) -> (r: &ScreenInformation)
        ensures
            r == &self.screen_information,
    {
        &self.screen_information
    }

    pub fn screen_size(&self) -> (r: (i32, i32))
        ensures
            r == (self.screen_information.size.x, self.screen_information.size.y),
    {
        (self.screen_information.size.x, self.screen_information.size.y)
    }

    /// How many grid cells the screen is split into.
    pub fn total_sections(&self) -> (r: usize)
        requires
            self.wf(),
            self.sections.0 * self.sections.1 <= usize::MAX,
        ensures
            r == self.sections.0 * self.sections.1,
    {
        proof {
            vstd::arithmetic::mul::lemma_mul_nonnegative(
                self.sections.0 as int,
                self.sections.1 as int,
            );
        }
        (self.sections.0 * self.sections.1) as usize
    }

    /// How many idle sprites the configuration supplies; there must be one per
    /// grid cell for the configuration to be usable.
    pub fn image_count(&self) -> (r: usize)
        ensures
            r == self.idle_images@.len(),
    {
        self.idle_images.len()
    }

    /// Whether every grid cell has a sprite.  A configuration that fails this
    /// check is rejected at start-up.
    pub fn is_valid(&self) -> (r: bool)
        requires
            self.wf(),
            self.sections.0 * self.sections.1 <= usize::MAX,
        ensures
            r == (self.idle_images@.len() >= self.sections.0 * self.sections.1),
    {
        self.image_count() >= self.total_sections()
    }

    /// The sprite shown for grid cell `index`, speaking or idle.
    pub fn current_image(&self, speaking: bool, index: usize) -> (r: &String)
        requires
            speaking ==> index < self.speaking_images@.len(),
            !speaking ==> index < self.idle_images@.len(),
        ensures
            speaking ==> r == self.speaking_images@[index as int],
            !speaking ==> r == self.idle_images@[index as int],
    {
        if speaking {
            &self.speaking_images[index]
        } else {
            &self.idle_images[index]
        }
    }
}

} // verus!
