use std::collections::HashMap;

use hachimi::game::Region;
use hachimi::il2cpp::hook::umamusume::DOFUpdateInfoDelegate::DOFUpdateInfoDelegate_Invoke;
use hachimi::il2cpp::hook::umamusume::HomeCameraController::{
    apply_home_free_camera, get_cinemachine_brain, get_home_camera, on_home_frame,
    ApplyHomeCamera, ApplyStep, BrainSearch, HomeFrame, HomeFrameAction, HomeObjects, Lookup,
    LINK_OFFSET,
};
use hachimi::il2cpp::hook::umamusume::LiveTimelineKeyCameraPositionData::{
    replaces_position, sets_selfie_stick_type,
};
use hachimi::il2cpp::hook::umamusume::PostEffectUpdateInfo_DOF::{disable_if_dof, DofFields};
use hachimi::il2cpp::hook::umamusume::RaceJikkyo;
use hachimi::il2cpp::hook::umamusume::{DOFUpdateInfoDelegate, LiveTimelineKeyCameraPositionData};
use hachimi::il2cpp::hook::Cute_Core_Assembly;
use hachimi::il2cpp::hook::umamusume::CharacterNoteTopView::{get_ButtonTalkGallery, ButtonTalkGalleryCall};
use hachimi::il2cpp::hook::umamusume::HomeCameraController;
use hachimi::il2cpp::hook::umamusume::PostEffectUpdateInfo_DOF;
use hachimi::il2cpp::hook::UnityEngine_ImageConversionModule::ImageConversion::{LoadImage, LoadImageCall};
use hachimi::il2cpp::hook::{Detour, MethodHook};
use hachimi::il2cpp::hook::UnityEngine_ImageConversionModule;
use hachimi::windows::proxy::dxgi::{
    dxgi_dll_path, forward_or, DXGID3D10CreateDevice, DXGIDeclareAdapterRemovalSupport,
    ProxyCall, E_NOTIMPL, S_OK,
};

#[test]
fn cute_core_hooks_by_region() {
    let j = Cute_Core_Assembly::init(true, Region::Japan);
    assert!(j.safety_net && j.device);
    let t = Cute_Core_Assembly::init(true, Region::Taiwan);
    assert!(!t.safety_net && t.device);
    let c = Cute_Core_Assembly::init(true, Region::China);
    assert!(!c.safety_net && c.device);
    let none = Cute_Core_Assembly::init(false, Region::Global);
    assert!(!none.safety_net && !none.device);
}

#[test]
fn image_conversion_not_in_china() {
    assert_eq!(UnityEngine_ImageConversionModule::init(Region::Japan, None), UnityEngine_ImageConversionModule::ImageConversionInit::LookUpImage);
    assert_eq!(UnityEngine_ImageConversionModule::init(Region::Korea, Some(0x77)), UnityEngine_ImageConversionModule::ImageConversionInit::HookImageConversion(0x77));
    assert_eq!(UnityEngine_ImageConversionModule::init(Region::Global, Some(0)), UnityEngine_ImageConversionModule::ImageConversionInit::Skip);
    assert_eq!(UnityEngine_ImageConversionModule::init(Region::China, None), UnityEngine_ImageConversionModule::ImageConversionInit::Skip);
    assert_eq!(UnityEngine_ImageConversionModule::init(Region::China, Some(0x77)), UnityEngine_ImageConversionModule::ImageConversionInit::Skip);
}

#[test]
fn dof_is_disabled_only_on_dof_updates() {
    let f = DofFields { class: 0x10, is_enable_dof_field: 0x20 };
    assert!(disable_if_dof(&f, 0x100, 0x10));
    assert!(!disable_if_dof(&f, 0x100, 0x11));
    assert!(!disable_if_dof(&f, 0, 0x10));
    let missing = DofFields { class: 0x10, is_enable_dof_field: 0 };
    assert!(!disable_if_dof(&missing, 0x100, 0x10));
    assert!(DOFUpdateInfoDelegate_Invoke(true, &f, 0x100, 0x10));
    assert!(!DOFUpdateInfoDelegate_Invoke(false, &f, 0x100, 0x10));
}

#[test]
fn live_camera_position_decisions() {
    assert!(sets_selfie_stick_type(true, true, 8));
    assert!(!sets_selfie_stick_type(true, false, 8));
    assert!(!sets_selfie_stick_type(true, true, 0));
    assert!(!sets_selfie_stick_type(false, true, 8));
    assert!(replaces_position(true, 0x40));
    assert!(!replaces_position(true, 0));
    assert!(!replaces_position(false, 0x40));
}

#[test]
fn race_jikkyo_hooks_and_texts() {
    let h = RaceJikkyo::init(1, 2, 0, 4);
    assert_eq!(h.message.map(|f| (f.id_field, f.text_field)), Some((1, 2)));
    assert!(h.comment.is_none());
    let mut dict = HashMap::new();
    dict.insert(5, "Go!".to_string());
    assert_eq!(RaceJikkyo::localized_text(&dict, 5), Some(&"Go!".to_string()));
    assert_eq!(RaceJikkyo::localized_text(&dict, 6), None);
}

#[test]
fn dxgi_path_and_exports() {
    let dir: Vec<u16> = "C:\\Windows\\System32".encode_utf16().collect();
    let mut expected: Vec<u16> = "C:\\Windows\\System32\\dxgi.dll".encode_utf16().collect();
    expected.push(0);
    assert_eq!(dxgi_dll_path(&dir), Some(expected));
    assert_eq!(dxgi_dll_path(&[0x43, 0, 0x44]), None);
    assert_eq!(forward_or(0, 5), ProxyCall::Return(5));
    assert_eq!(DXGIDeclareAdapterRemovalSupport(0), ProxyCall::Return(S_OK));
    assert_eq!(DXGID3D10CreateDevice(0), ProxyCall::Return(E_NOTIMPL));
    assert_eq!(E_NOTIMPL as u32, 0x80004001);
    assert_eq!(DXGID3D10CreateDevice(0x1234), ProxyCall::Forward(0x1234));
}

fn objects(director: usize, switcher: usize) -> HomeObjects {
    HomeObjects {
        director,
        switcher,
        director_get_camera: 0xD0,
        switcher_get_camera: 0xE0,
        switcher_get_cinema_brain: 0xF0,
    }
}

#[test]
fn home_camera_search() {
    let h = objects(0x100, 0x200);
    assert_eq!(get_home_camera(&h, None, None), Lookup::Call { method: 0xD0, this: 0x100 });
    assert_eq!(get_home_camera(&h, Some(0x111), None), Lookup::Found(0x111));
    assert_eq!(get_home_camera(&h, Some(0), None), Lookup::Call { method: 0xE0, this: 0x200 });
    assert_eq!(get_home_camera(&h, Some(0), Some(0x222)), Lookup::Found(0x222));
    assert_eq!(get_home_camera(&h, Some(0), Some(0)), Lookup::Found(0));
    let mut gone = h;
    gone.on_director_destroy();
    assert_eq!(get_home_camera(&gone, None, None), Lookup::Found(0));
    assert_eq!(get_cinemachine_brain(&gone, &BrainSearch::new()), Lookup::Found(0));
}

#[test]
fn brain_search_falls_back_through_fields() {
    let h = objects(0x100, 0x200);
    let mut s = BrainSearch::new();
    assert_eq!(get_cinemachine_brain(&h, &s), Lookup::Call { method: 0xF0, this: 0x200 });
    s.from_getter = Some(0);
    assert_eq!(get_cinemachine_brain(&h, &s), Lookup::Read { object: 0x200, offset: LINK_OFFSET });
    s.at_switcher = Some(0);
    assert_eq!(get_cinemachine_brain(&h, &s), Lookup::Read { object: 0x100, offset: 0x28 });
    s.switcher_at_director = Some(0x300);
    assert_eq!(get_cinemachine_brain(&h, &s), Lookup::Read { object: 0x300, offset: 0x28 });
    s.at_director_switcher = Some(0x333);
    assert_eq!(get_cinemachine_brain(&h, &s), Lookup::Found(0x333));

    let mut only_director = objects(0x100, 0);
    only_director.on_director_update(0x101, 0);
    assert_eq!(only_director.switcher, 0);
    assert_eq!(
        get_cinemachine_brain(&only_director, &BrainSearch::new()),
        Lookup::Read { object: 0x101, offset: 0x28 }
    );
    only_director.on_director_update(0x101, 0x500);
    assert_eq!(only_director.switcher, 0x500);
}

#[test]
fn placing_the_free_camera() {
    let mut p = ApplyHomeCamera::new();
    assert_eq!(apply_home_free_camera(&p), ApplyStep::AskSceneEnabled);
    p.scene_enabled = Some(false);
    assert_eq!(apply_home_free_camera(&p), ApplyStep::Done);
    p.scene_enabled = Some(true);
    assert_eq!(apply_home_free_camera(&p), ApplyStep::FindCamera);
    p.camera = Some(0x10);
    assert_eq!(apply_home_free_camera(&p), ApplyStep::GetTransform(0x10));
    p.transform = Some(0);
    assert_eq!(apply_home_free_camera(&p), ApplyStep::Done);
    p.transform = Some(0x20);
    assert_eq!(apply_home_free_camera(&p), ApplyStep::AskRotation);
    p.has_rotation = Some(true);
    assert_eq!(apply_home_free_camera(&p), ApplyStep::PlaceWithRotation(0x20));
    p.has_rotation = Some(false);
    assert_eq!(apply_home_free_camera(&p), ApplyStep::PlaceLookingAt(0x20));
}

/// Runs one home frame against a simulated scene; returns the actions taken.
fn run_frame(enabled_before: bool, enabled_after: bool, brain_enabled: bool) -> Vec<HomeFrameAction> {
    let mut f = HomeFrame::new();
    let mut taken = Vec::new();
    for _ in 0..14 {
        let a = on_home_frame(&f);
        taken.push(a);
        let answer = match a {
            HomeFrameAction::FindCamera => 0x10,
            HomeFrameAction::GetTransform(_) => 0x20,
            HomeFrameAction::AskSceneEnabled => enabled_before as usize,
            HomeFrameAction::FindBrain | HomeFrameAction::FindBrainAfterTick => 0x30,
            HomeFrameAction::AskBrainEnabled(_) | HomeFrameAction::AskBrainEnabledAfterTick(_) => {
                brain_enabled as usize
            }
            HomeFrameAction::AskSceneEnabledAfterTick => enabled_after as usize,
            HomeFrameAction::Done => return taken,
            _ => 0,
        };
        f.record(a, answer);
    }
    panic!("frame did not finish");
}

#[test]
fn home_frame_with_free_camera_off() {
    let taken = run_frame(false, false, false);
    assert_eq!(
        taken,
        vec![
            HomeFrameAction::FindCamera,
            HomeFrameAction::GetTransform(0x10),
            HomeFrameAction::AskSceneEnabled,
            HomeFrameAction::SaveTransform(0x20),
            HomeFrameAction::FindBrain,
            HomeFrameAction::AskBrainEnabled(0x30),
            HomeFrameAction::EnableBrain(0x30),
            HomeFrameAction::ActivateAndTick,
            HomeFrameAction::AskSceneEnabledAfterTick,
            HomeFrameAction::Done,
        ]
    );
}

#[test]
fn home_frame_with_free_camera_on() {
    let taken = run_frame(true, true, true);
    assert_eq!(
        taken,
        vec![
            HomeFrameAction::FindCamera,
            HomeFrameAction::GetTransform(0x10),
            HomeFrameAction::AskSceneEnabled,
            HomeFrameAction::ActivateAndTick,
            HomeFrameAction::AskSceneEnabledAfterTick,
            HomeFrameAction::FindBrainAfterTick,
            HomeFrameAction::AskBrainEnabledAfterTick(0x30),
            HomeFrameAction::DisableBrain(0x30),
            HomeFrameAction::ApplyCamera,
            HomeFrameAction::Done,
        ]
    );
}

#[test]
fn home_frame_without_camera_still_ticks() {
    let mut f = HomeFrame::new();
    assert_eq!(on_home_frame(&f), HomeFrameAction::FindCamera);
    f.camera = Some(0);
    assert_eq!(on_home_frame(&f), HomeFrameAction::ActivateAndTick);
}

#[test]
fn placement_driven_by_record() {
    let mut p = ApplyHomeCamera::new();
    let mut steps = Vec::new();
    loop {
        let step = apply_home_free_camera(&p);
        steps.push(step);
        let answer = match step {
            ApplyStep::AskSceneEnabled => 1,
            ApplyStep::FindCamera => 0x10,
            ApplyStep::GetTransform(_) => 0x20,
            ApplyStep::AskRotation => 0,
            _ => break,
        };
        p.record(step, answer);
    }
    assert_eq!(
        steps,
        vec![
            ApplyStep::AskSceneEnabled,
            ApplyStep::FindCamera,
            ApplyStep::GetTransform(0x10),
            ApplyStep::AskRotation,
            ApplyStep::PlaceLookingAt(0x20),
        ]
    );
}

#[test]
fn home_frame_with_free_camera_switched_on_by_tick() {
    let taken = run_frame(false, true, false);
    assert_eq!(taken.len(), 13);
    assert!(taken.contains(&HomeFrameAction::EnableBrain(0x30)));
    assert!(taken.contains(&HomeFrameAction::ApplyCamera));
    assert!(!taken.iter().any(|a| matches!(a, HomeFrameAction::DisableBrain(_))));
}

#[test]
fn class_hooks_installed_only_when_found() {
    assert!(DOFUpdateInfoDelegate::init(None).is_empty());
    assert_eq!(
        DOFUpdateInfoDelegate::init(Some(0x50)),
        vec![MethodHook { class: 0x50, method: "Invoke", args: 1, detour: Detour::DofUpdateInfoDelegateInvoke }]
    );
    assert!(LiveTimelineKeyCameraPositionData::init(None).is_empty());
    assert_eq!(
        LiveTimelineKeyCameraPositionData::init(Some(0x60)),
        vec![
            MethodHook { class: 0x60, method: "GetValue", args: 1, detour: Detour::GetCameraPos },
            MethodHook { class: 0x60, method: "GetValue", args: 2, detour: Detour::GetCameraPos2 },
        ]
    );
}

#[test]
fn home_scene_hooks() {
    assert!(HomeCameraController::init(None, Some(0x20)).is_empty());
    let director_only = HomeCameraController::init(Some(0x10), None);
    assert_eq!(
        director_only,
        vec![
            MethodHook { class: 0x10, method: "AlterUpdate", args: 0, detour: Detour::HomeDirectorAlterUpdate },
            MethodHook { class: 0x10, method: "OnDestroy", args: 0, detour: Detour::HomeDirectorOnDestroy },
        ]
    );
    let both = HomeCameraController::init(Some(0x10), Some(0x20));
    assert_eq!(both.len(), 3);
    assert_eq!(
        both[2],
        MethodHook { class: 0x20, method: "AlterUpdate", args: 0, detour: Detour::HomeCameraSwitcherAlterUpdate }
    );
}

#[test]
fn dof_fields_recorded_with_class() {
    assert_eq!(
        PostEffectUpdateInfo_DOF::init(Some(0x10), 0x20),
        DofFields { class: 0x10, is_enable_dof_field: 0x20 }
    );
    assert_eq!(PostEffectUpdateInfo_DOF::init(Some(0x10), 0), DofFields { class: 0x10, is_enable_dof_field: 0 });
    assert_eq!(PostEffectUpdateInfo_DOF::init(None, 0x20), DofFields { class: 0, is_enable_dof_field: 0 });
}

#[test]
fn optional_methods_forward_or_fall_back() {
    assert_eq!(LoadImage(0), LoadImageCall::ReturnFalse);
    assert_eq!(LoadImage(0x1234), LoadImageCall::Call(0x1234));
    assert_eq!(get_ButtonTalkGallery(0), ButtonTalkGalleryCall::ReturnNull);
    assert_eq!(get_ButtonTalkGallery(0x99), ButtonTalkGalleryCall::Call(0x99));
}
