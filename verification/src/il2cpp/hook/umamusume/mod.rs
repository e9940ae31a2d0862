pub mod CharacterNoteTopView;
pub mod DOFUpdateInfoDelegate;
pub mod HomeCameraController;
pub mod LiveTimelineKeyCameraPositionData;
pub mod PostEffectUpdateInfo_DOF;
pub mod RaceJikkyo;
