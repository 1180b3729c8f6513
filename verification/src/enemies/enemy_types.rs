//! The catalogue of enemy types: for each type its health, its artwork and
//! where its eyes sit. Static data, the same for the whole run of the game.

use vstd::prelude::*;

verus! {

/// Enemy types.
#[derive(Debug, Clone, Copy, PartialEq, Eq, Structural, Hash)]
pub enum EnemyType {
    /// Most basic enemy, the slime!
    Slime,
    /// Orc.
    Orc,
}

/// A length along each axis of an enemy's artwork, in half pixels, so that
/// a pixel and a half is the integer 3.
#[derive(Debug, Clone, Copy, PartialEq, Eq, Structural, Hash)]
pub struct HalfPixels {
    /// Along the horizontal axis, growing to the right.
    pub x: i32,
    /// Along the vertical axis, growing upwards.
    pub y: i32,
}

/// Describes where the eyes are, and how big they are, measured on the
/// enemy's artwork.
#[derive(Debug, Clone, Copy, PartialEq, Eq, Structural, Hash)]
pub struct EyeSettings {
    /// Offset from parent center.
    pub offset: HalfPixels,
    /// How big is the pupil?
    pub pupil_scale: HalfPixels,
    /// How big is the eye?
    pub eye_scale: HalfPixels,
}

/// The eye with the given offset, eye size and pupil size.
pub open spec fn eye(offset: (int, int), eye_scale: (int, int), pupil_scale: (int, int)) -> EyeSettings {
    EyeSettings {
        offset: HalfPixels { x: offset.0 as i32, y: offset.1 as i32 },
        pupil_scale: HalfPixels { x: pupil_scale.0 as i32, y: pupil_scale.1 as i32 },
        eye_scale: HalfPixels { x: eye_scale.0 as i32, y: eye_scale.1 as i32 },
    }
}

/// Number of [`HalfPixels`] units in one pixel of the artwork.
pub const HALF_PIXELS_PER_PIXEL: i32 = 2;

/// One handle per enemy type to whatever draws it. The catalogue only picks
/// among the handles and never looks inside one.
#[derive(Debug)]
pub struct EnemyAssets<H> {
    /// Slime enemy.
    pub slime: H,
    /// Orc enemy.
    pub orc: H,
}

/// The eyes of each enemy type.
pub open spec fn spec_eye_settings(enemy_type: EnemyType) -> Seq<EyeSettings> {
    match enemy_type {
        EnemyType::Slime => seq![eye((-6, 6), (8, 8), (4, 4)), eye((6, 6), (8, 8), (4, 4))],
        EnemyType::Orc => seq![eye((-4, 12), (4, 4), (3, 3))],
    }
}

/// The health that an enemy of each type starts with.
pub open spec fn spec_enemy_health(enemy_type: EnemyType) -> u8 {
    match enemy_type {
        EnemyType::Slime => 2,
        EnemyType::Orc => 4,
    }
}

/// The enemy type that a level file means by `name`, if any.
pub open spec fn spec_from_name(name: Seq<char>) -> Option<EnemyType> {
    if name == "Slime"@ {
        Some(EnemyType::Slime)
    } else if name == "Orc"@ {
        Some(EnemyType::Orc)
    } else {
        None
    }
}

impl EyeSettings {
    /// An eye whose centre sits at the offset (`x`, `y`) from the centre of
    /// the enemy, `eye_width` wide and `eye_height` high, with a pupil of
    /// `pupil_width` by `pupil_height`. All in half pixels.
    pub fn new(
        x: i32,
        y: i32,
        eye_width: i32,
        eye_height: i32,
        pupil_width: i32,
        pupil_height: i32,
    ) -> (settings: EyeSettings)
        ensures
            settings == eye(
                (x as int, y as int),
                (eye_width as int, eye_height as int),
                (pupil_width as int, pupil_height as int),
            ),
    {
        EyeSettings {
            offset: HalfPixels { x, y },
            pupil_scale: HalfPixels { x: pupil_width, y: pupil_height },
            eye_scale: HalfPixels { x: eye_width, y: eye_height },
        }
    }
}

impl EnemyType {
    /// Reads an enemy type from the name that level files use for it:
    /// `"Slime"` or `"Orc"`, spelled exactly so. Any other name is unknown
    /// and gives `None`; a level that holds one is invalid.
    pub fn from_name(name: &str) -> (enemy_type: Option<EnemyType>)
        ensures
            enemy_type == spec_from_name(name@),
    {
        let owned: String = name.to_owned();
        if owned == "Slime".to_owned() {
            Some(EnemyType::Slime)
        } else if owned == "Orc".to_owned() {
            Some(EnemyType::Orc)
        } else {
            None
        }
    }

    /// How to construct the eyes: one entry for each eye of this type.
    pub fn eye_settings(self) -> (settings: Vec<EyeSettings>)
        ensures
            settings@ == spec_eye_settings(self),
    {
        let mut settings: Vec<EyeSettings> = Vec::new();
        match self {
            EnemyType::Slime => {
                settings.push(EyeSettings::new(-6, 6, 8, 8, 4, 4));
                settings.push(EyeSettings::new(6, 6, 8, 8, 4, 4));
            },
            EnemyType::Orc => {
                settings.push(EyeSettings::new(-4, 12, 4, 4, 3, 3));
            },
        }
        assert(settings@ =~= spec_eye_settings(self));
        settings
    }

    /// What artwork should be used for this enemy? Picks this type's handle
    /// out of `assets`.
    pub fn enemy_asset<H>(self, assets: &EnemyAssets<H>) -> (handle: &H)
        ensures
            *handle == match self {
                EnemyType::Slime => assets.slime,
                EnemyType::Orc => assets.orc,
            },
    {
        match self {
            EnemyType::Slime => &assets.slime,
            EnemyType::Orc => &assets.orc,
        }
    }

    /// How much health should we have?
    pub fn enemy_health(self) -> (health: u8)
        ensures
            health == spec_enemy_health(self),
    {
        match self {
            EnemyType::Slime => 2,
            EnemyType::Orc => 4,
        }
    }
}

} // verus!
