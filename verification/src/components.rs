//! Item data components that carry no data in this server yet: their
//! presence on an item is all that matters.

use vstd::prelude::*;

verus! {

#[derive(Clone, Debug, Hash, PartialEq, Eq)]
pub struct CustomDataImpl;

#[derive(Clone, Debug, Hash, PartialEq, Eq)]
pub struct ItemModelImpl;

#[derive(Clone, Debug, Hash, PartialEq, Eq)]
pub struct LoreImpl;

#[derive(Clone, Debug, Hash, PartialEq, Eq)]
pub struct RarityImpl;

#[derive(Clone, Debug, Hash, PartialEq, Eq)]
pub struct CanPlaceOnImpl;

#[derive(Clone, Debug, Hash, PartialEq, Eq)]
pub struct CanBreakImpl;

#[derive(Clone, Debug, Hash, PartialEq, Eq)]
pub struct CustomModelDataImpl;

#[derive(Clone, Debug, Hash, PartialEq, Eq)]
pub struct TooltipDisplayImpl;

#[derive(Clone, Debug, Hash, PartialEq, Eq)]
pub struct RepairCostImpl;

#[derive(Clone, Debug, Hash, PartialEq, Eq)]
pub struct CreativeSlotLockImpl;

#[derive(Clone, Debug, Hash, PartialEq, Eq)]
pub struct EnchantmentGlintOverrideImpl;

#[derive(Clone, Debug, Hash, PartialEq, Eq)]
pub struct IntangibleProjectileImpl;

#[derive(Clone, Debug, Hash, PartialEq, Eq)]
pub struct UseRemainderImpl;

#[derive(Clone, Debug, Hash, PartialEq, Eq)]
pub struct UseCooldownImpl;

#[derive(Clone, Debug, Hash, PartialEq, Eq)]
pub struct WeaponImpl;

#[derive(Clone, Debug, Hash, PartialEq, Eq)]
pub struct EnchantableImpl;

#[derive(Clone, Debug, Hash, PartialEq, Eq)]
pub struct RepairableImpl;

#[derive(Clone, Debug, Hash, PartialEq, Eq)]
pub struct GliderImpl;

#[derive(Clone, Debug, Hash, PartialEq, Eq)]
pub struct TooltipStyleImpl;

#[derive(Clone, Debug, Hash, PartialEq, Eq)]
pub struct DeathProtectionImpl;

#[derive(Clone, Debug, Hash, PartialEq, Eq)]
pub struct BlocksAttacksImpl;

#[derive(Clone, Debug, Hash, PartialEq, Eq)]
pub struct StoredEnchantmentsImpl;

#[derive(Clone, Debug, Hash, PartialEq, Eq)]
pub struct DyedColorImpl;

#[derive(Clone, Debug, Hash, PartialEq, Eq)]
pub struct MapColorImpl;

#[derive(Clone, Debug, Hash, PartialEq, Eq)]
pub struct MapIdImpl;

#[derive(Clone, Debug, Hash, PartialEq, Eq)]
pub struct MapDecorationsImpl;

#[derive(Clone, Debug, Hash, PartialEq, Eq)]
pub struct MapPostProcessingImpl;

#[derive(Clone, Debug, Hash, PartialEq, Eq)]
pub struct ChargedProjectilesImpl;

#[derive(Clone, Debug, Hash, PartialEq, Eq)]
pub struct BundleContentsImpl;

#[derive(Clone, Debug, Hash, PartialEq, Eq)]
pub struct PotionDurationScaleImpl;

#[derive(Clone, Debug, Hash, PartialEq, Eq)]
pub struct SuspiciousStewEffectsImpl;

#[derive(Clone, Debug, Hash, PartialEq, Eq)]
pub struct WritableBookContentImpl;

#[derive(Clone, Debug, Hash, PartialEq, Eq)]
pub struct WrittenBookContentImpl;

#[derive(Clone, Debug, Hash, PartialEq, Eq)]
pub struct TrimImpl;

#[derive(Clone, Debug, Hash, PartialEq, Eq)]
pub struct DebugStickStateImpl;

#[derive(Clone, Debug, Hash, PartialEq, Eq)]
pub struct EntityDataImpl;

#[derive(Clone, Debug, Hash, PartialEq, Eq)]
pub struct BucketEntityDataImpl;

#[derive(Clone, Debug, Hash, PartialEq, Eq)]
pub struct BlockEntityDataImpl;

#[derive(Clone, Debug, Hash, PartialEq, Eq)]
pub struct InstrumentImpl;

#[derive(Clone, Debug, Hash, PartialEq, Eq)]
pub struct ProvidesTrimMaterialImpl;

#[derive(Clone, Debug, Hash, PartialEq, Eq)]
pub struct OminousBottleAmplifierImpl;

#[derive(Clone, Debug, Hash, PartialEq, Eq)]
pub struct ProvidesBannerPatternsImpl;

#[derive(Clone, Debug, Hash, PartialEq, Eq)]
pub struct RecipesImpl;

#[derive(Clone, Debug, Hash, PartialEq, Eq)]
pub struct LodestoneTrackerImpl;

#[derive(Clone, Debug, Hash, PartialEq, Eq)]
pub struct ProfileImpl;

#[derive(Clone, Debug, Hash, PartialEq, Eq)]
pub struct NoteBlockSoundImpl;

#[derive(Clone, Debug, Hash, PartialEq, Eq)]
pub struct BannerPatternsImpl;

#[derive(Clone, Debug, Hash, PartialEq, Eq)]
pub struct BaseColorImpl;

#[derive(Clone, Debug, Hash, PartialEq, Eq)]
pub struct PotDecorationsImpl;

#[derive(Clone, Debug, Hash, PartialEq, Eq)]
pub struct ContainerImpl;

#[derive(Clone, Debug, Hash, PartialEq, Eq)]
pub struct BlockStateImpl;

#[derive(Clone, Debug, Hash, PartialEq, Eq)]
pub struct BeesImpl;

#[derive(Clone, Debug, Hash, PartialEq, Eq)]
pub struct LockImpl;

#[derive(Clone, Debug, Hash, PartialEq, Eq)]
pub struct ContainerLootImpl;

#[derive(Clone, Debug, Hash, PartialEq, Eq)]
pub struct BreakSoundImpl;

#[derive(Clone, Debug, Hash, PartialEq, Eq)]
pub struct VillagerVariantImpl;

#[derive(Clone, Debug, Hash, PartialEq, Eq)]
pub struct WolfVariantImpl;

#[derive(Clone, Debug, Hash, PartialEq, Eq)]
pub struct WolfSoundVariantImpl;

#[derive(Clone, Debug, Hash, PartialEq, Eq)]
pub struct WolfCollarImpl;

#[derive(Clone, Debug, Hash, PartialEq, Eq)]
pub struct FoxVariantImpl;

#[derive(Clone, Debug, Hash, PartialEq, Eq)]
pub struct SalmonSizeImpl;

#[derive(Clone, Debug, Hash, PartialEq, Eq)]
pub struct ParrotVariantImpl;

#[derive(Clone, Debug, Hash, PartialEq, Eq)]
pub struct TropicalFishPatternImpl;

#[derive(Clone, Debug, Hash, PartialEq, Eq)]
pub struct TropicalFishBaseColorImpl;

#[derive(Clone, Debug, Hash, PartialEq, Eq)]
pub struct TropicalFishPatternColorImpl;

#[derive(Clone, Debug, Hash, PartialEq, Eq)]
pub struct MooshroomVariantImpl;

#[derive(Clone, Debug, Hash, PartialEq, Eq)]
pub struct RabbitVariantImpl;

#[derive(Clone, Debug, Hash, PartialEq, Eq)]
pub struct PigVariantImpl;

#[derive(Clone, Debug, Hash, PartialEq, Eq)]
pub struct CowVariantImpl;

#[derive(Clone, Debug, Hash, PartialEq, Eq)]
pub struct ChickenVariantImpl;

#[derive(Clone, Debug, Hash, PartialEq, Eq)]
pub struct FrogVariantImpl;

#[derive(Clone, Debug, Hash, PartialEq, Eq)]
pub struct HorseVariantImpl;

#[derive(Clone, Debug, Hash, PartialEq, Eq)]
pub struct PaintingVariantImpl;

#[derive(Clone, Debug, Hash, PartialEq, Eq)]
pub struct LlamaVariantImpl;

#[derive(Clone, Debug, Hash, PartialEq, Eq)]
pub struct AxolotlVariantImpl;

#[derive(Clone, Debug, Hash, PartialEq, Eq)]
pub struct CatVariantImpl;

#[derive(Clone, Debug, Hash, PartialEq, Eq)]
pub struct CatCollarImpl;

#[derive(Clone, Debug, Hash, PartialEq, Eq)]
pub struct SheepColorImpl;

#[derive(Clone, Debug, Hash, PartialEq, Eq)]
pub struct ShulkerColorImpl;

} // verus!
