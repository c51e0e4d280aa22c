use krun_cgroups::executor::{ExecutorError, ExecutorValidationError, KrunStep};
use krun_cgroups::libkrun::{
    can_handle, check_selected, claim_context, context_from_status, modify_spec_device,
    modify_spec_for_libkrun, modify_spec_resource_device, read_krun_log_level_from_annotations,
    read_krun_path_from_annotations, read_krun_vm_config_from_annotations, validate, DeviceProbe,
    KrunAction, KrunError, KrunLaunch, LaunchStage,
};
use krun_cgroups::runtime::{
    Linux, LinuxDevice, LinuxDeviceCgroup, LinuxDeviceType, LinuxResources, Process, Root, Spec,
};

fn spec_with(annotations: &[(&str, &str)]) -> Spec {
    Spec {
        process: Some(Process {
            args: Some(vec!["/bin/sh".to_string()]),
        }),
        root: Some(Root {
            path: "/run/bundle/rootfs".to_string(),
        }),
        annotations: Some(
            annotations
                .iter()
                .map(|(k, v)| (k.to_string(), v.to_string()))
                .collect(),
        ),
        linux: None,
    }
}

fn krun_spec() -> Spec {
    spec_with(&[("run.oci.handler", "krun")])
}

fn found() -> DeviceProbe {
    DeviceProbe::Found {
        major: 10,
        minor: 232,
    }
}

fn rule(major: i64) -> LinuxDeviceCgroup {
    LinuxDeviceCgroup {
        allow: false,
        typ: Some(LinuxDeviceType::A),
        major: Some(major),
        minor: None,
        access: Some("rwm".to_string()),
    }
}

#[test]
fn selection_needs_exact_handler() {
    assert!(can_handle(&krun_spec()));
    assert!(!can_handle(&spec_with(&[("run.oci.handler", "Krun")])));
    assert!(!can_handle(&spec_with(&[("run.oci.handler", "krun ")])));
    assert!(!can_handle(&spec_with(&[("run.oci.handler", "kru")])));
    assert!(!can_handle(&spec_with(&[("other", "krun")])));
    let mut none = krun_spec();
    none.annotations = None;
    assert!(!can_handle(&none));
}

#[test]
fn selection_is_stable_and_agrees() {
    let yes = krun_spec();
    let no = spec_with(&[]);
    assert_eq!(can_handle(&yes), can_handle(&yes));
    assert_eq!(can_handle(&no), can_handle(&no));
    assert_eq!(validate(&yes), Ok(()));
    assert_eq!(check_selected(&yes), Ok(()));
    assert_eq!(
        validate(&no),
        Err(ExecutorValidationError::CantHandle("libkrun".to_string()))
    );
    assert_eq!(
        check_selected(&no),
        Err(ExecutorError::CantHandle("libkrun".to_string()))
    );
    assert_eq!(
        KrunLaunch::start(&no, true, Some(1)).unwrap_err(),
        ExecutorError::CantHandle("libkrun".to_string())
    );
}

#[test]
fn device_added_once() {
    let mut spec = krun_spec();
    modify_spec_device(&mut spec, &found()).unwrap();
    let expected = LinuxDevice {
        path: "/dev/kvm".to_string(),
        typ: LinuxDeviceType::C,
        major: 10,
        minor: 232,
        file_mode: Some(0o666),
        uid: Some(0),
        gid: Some(0),
    };
    let linux = spec.linux.clone().unwrap();
    assert_eq!(linux.devices, Some(vec![expected]));
    let once = spec.clone();
    modify_spec_device(&mut spec, &found()).unwrap();
    assert_eq!(spec, once);
}

#[test]
fn device_appended_after_others() {
    let mut spec = krun_spec();
    let null = LinuxDevice {
        path: "/dev/null".to_string(),
        typ: LinuxDeviceType::C,
        major: 1,
        minor: 3,
        file_mode: None,
        uid: None,
        gid: None,
    };
    spec.linux = Some(Linux {
        devices: Some(vec![null.clone()]),
        resources: None,
    });
    modify_spec_device(&mut spec, &found()).unwrap();
    let devices = spec.linux.unwrap().devices.unwrap();
    assert_eq!(devices.len(), 2);
    assert_eq!(devices[0], null);
    assert_eq!(devices[1].path, "/dev/kvm");
}

#[test]
fn device_absent_on_host() {
    let mut spec = krun_spec();
    modify_spec_device(&mut spec, &DeviceProbe::NotFound).unwrap();
    assert_eq!(spec.linux, Some(Linux::default()));
    let linux = spec.linux.unwrap();
    assert_eq!(linux.devices, None);
    assert_eq!(linux.resources.unwrap().devices, Some(vec![]));
}

#[test]
fn device_probe_failure() {
    let mut spec = krun_spec();
    let before = spec.clone();
    let err = modify_spec_device(&mut spec, &DeviceProbe::Failed("EACCES".to_string()));
    assert_eq!(
        err,
        Err(KrunError::Other("stat `/dev/kvm`: EACCES".to_string()))
    );
    assert_eq!(spec, before);
}

#[test]
fn rule_needs_existing_rules() {
    let mut spec = krun_spec();
    let before = spec.clone();
    modify_spec_resource_device(&mut spec, &found()).unwrap();
    assert_eq!(spec, before);

    spec.linux = Some(Linux::default());
    let before = spec.clone();
    modify_spec_resource_device(&mut spec, &found()).unwrap();
    assert_eq!(spec, before);

    spec.linux = Some(Linux {
        devices: None,
        resources: Some(LinuxResources {
            devices: None,
            pids: None,
        }),
    });
    let before = spec.clone();
    modify_spec_resource_device(&mut spec, &found()).unwrap();
    assert_eq!(spec, before);
}

#[test]
fn rule_added_to_existing_rules() {
    let mut spec = krun_spec();
    spec.linux = Some(Linux {
        devices: None,
        resources: Some(LinuxResources {
            devices: Some(vec![rule(4)]),
            pids: None,
        }),
    });
    let before = spec.clone();
    modify_spec_resource_device(&mut spec, &DeviceProbe::NotFound).unwrap();
    assert_eq!(spec, before);
    modify_spec_resource_device(&mut spec, &found()).unwrap();
    let rules = spec.linux.unwrap().resources.unwrap().devices.unwrap();
    assert_eq!(
        rules,
        vec![
            rule(4),
            LinuxDeviceCgroup {
                allow: true,
                typ: Some(LinuxDeviceType::C),
                major: Some(10),
                minor: Some(232),
                access: Some("rwm".to_string()),
            }
        ]
    );
}

#[test]
fn rule_probe_failure() {
    let mut spec = krun_spec();
    spec.linux = Some(Linux {
        devices: None,
        resources: Some(LinuxResources {
            devices: Some(vec![rule(4)]),
            pids: None,
        }),
    });
    let err = modify_spec_resource_device(&mut spec, &DeviceProbe::Failed("EIO".to_string()));
    assert_eq!(err, Err(KrunError::Other("stat `/dev/kvm`: EIO".to_string())));
}

#[test]
fn prepare_needs_root() {
    let mut spec = krun_spec();
    spec.root = None;
    let before = spec.clone();
    assert!(modify_spec_for_libkrun(&mut spec, &found()).is_err());
    assert_eq!(spec, before);
}

#[test]
fn prepare_adds_device_and_returns_root() {
    let mut spec = krun_spec();
    let root = modify_spec_for_libkrun(&mut spec, &found()).unwrap();
    assert_eq!(root, "/run/bundle/rootfs");
    let linux = spec.linux.unwrap();
    assert_eq!(linux.devices.unwrap().len(), 1);
    assert_eq!(linux.resources.unwrap().devices, Some(vec![]));
}

#[test]
fn vm_config_defaults() {
    assert_eq!(read_krun_vm_config_from_annotations(&krun_spec()), (1, 2048));
    let mut none = krun_spec();
    none.annotations = None;
    assert_eq!(read_krun_vm_config_from_annotations(&none), (1, 2048));
}

#[test]
fn vm_config_from_annotations() {
    let spec = spec_with(&[("krun.cpus", " 4 "), ("krun.ram_mib", "1024")]);
    assert_eq!(read_krun_vm_config_from_annotations(&spec), (4, 1024));
}

#[test]
fn vm_config_pair_falls_back_together() {
    let spec = spec_with(&[("krun.cpus", "4"), ("krun.ram_mib", "lots")]);
    assert_eq!(read_krun_vm_config_from_annotations(&spec), (1, 2048));
    let spec = spec_with(&[("krun.cpus", "256"), ("krun.ram_mib", "1024")]);
    assert_eq!(read_krun_vm_config_from_annotations(&spec), (1, 2048));
    let spec = spec_with(&[("krun.ram_mib", "1024")]);
    assert_eq!(read_krun_vm_config_from_annotations(&spec), (1, 2048));
    let spec = spec_with(&[("krun.cpus", "255"), ("krun.ram_mib", "4294967295")]);
    assert_eq!(
        read_krun_vm_config_from_annotations(&spec),
        (255, u32::MAX)
    );
}

#[test]
fn log_level_from_annotation() {
    assert_eq!(read_krun_log_level_from_annotations(&krun_spec()), 1);
    let spec = spec_with(&[("krun.log_level", "\t3\n")]);
    assert_eq!(read_krun_log_level_from_annotations(&spec), 3);
    let spec = spec_with(&[("krun.log_level", "-3")]);
    assert_eq!(read_krun_log_level_from_annotations(&spec), 1);
}

#[test]
fn library_path_from_annotation() {
    assert_eq!(read_krun_path_from_annotations(&krun_spec()), "libkrun.so.1");
    let spec = spec_with(&[("krun.libkrun.path", "  /opt/libkrun.so  ")]);
    assert_eq!(read_krun_path_from_annotations(&spec), "/opt/libkrun.so");
}

#[test]
fn exec_without_args_is_invalid() {
    let mut spec = krun_spec();
    spec.process = Some(Process { args: Some(vec![]) });
    assert_eq!(
        KrunLaunch::start(&spec, true, Some(3)).unwrap_err(),
        ExecutorError::InvalidArg
    );
    assert_eq!(
        KrunLaunch::start(&spec, false, None).unwrap_err(),
        ExecutorError::InvalidArg
    );
    spec.process = None;
    assert_eq!(
        KrunLaunch::start(&spec, true, Some(3)).unwrap_err(),
        ExecutorError::InvalidArg
    );
}

#[test]
fn exec_needs_library_and_context() {
    let spec = krun_spec();
    assert_eq!(
        KrunLaunch::start(&spec, false, Some(3)).unwrap_err(),
        ExecutorError::LibraryNotLoaded
    );
    assert_eq!(
        KrunLaunch::start(&spec, true, None).unwrap_err(),
        ExecutorError::ContextNotInitialized
    );
}

#[test]
fn exec_runs_steps_in_order() {
    let spec = spec_with(&[
        ("run.oci.handler", "krun"),
        ("krun.cpus", "2"),
        ("krun.ram_mib", "512"),
        ("krun.log_level", "4"),
    ]);
    let (mut launch, action) = KrunLaunch::start(&spec, true, Some(7)).unwrap();
    assert_eq!(action, KrunAction::SetLogLevel { level: 4 });
    assert_eq!(
        launch.on_status(0),
        KrunAction::SetVmConfig {
            ctx_id: 7,
            vcpus: 2,
            ram_mib: 512
        }
    );
    assert_eq!(
        launch.on_status(0),
        KrunAction::SetRoot {
            ctx_id: 7,
            root: "/".to_string()
        }
    );
    assert_eq!(launch.on_status(1), KrunAction::StartEnter { ctx_id: 7 });
    assert_eq!(launch.on_status(9), KrunAction::Exit { status: 9 });
    assert_eq!(launch.stage, LaunchStage::Finished);
}

#[test]
fn exec_stops_on_failed_step() {
    let (mut launch, _) = KrunLaunch::start(&krun_spec(), true, Some(0)).unwrap();
    assert!(matches!(launch.on_status(0), KrunAction::SetVmConfig { .. }));
    assert_eq!(
        launch.on_status(-22),
        KrunAction::Fail(ExecutorError::Foreign {
            step: KrunStep::SetVmConfig,
            rc: -22
        })
    );
    assert_eq!(launch.stage, LaunchStage::Finished);

    let (mut launch, _) = KrunLaunch::start(&krun_spec(), true, Some(0)).unwrap();
    launch.on_status(0);
    launch.on_status(0);
    launch.on_status(0);
    assert_eq!(
        launch.on_status(-1),
        KrunAction::Fail(ExecutorError::Foreign {
            step: KrunStep::StartEnter,
            rc: -1
        })
    );
}

#[test]
fn context_is_recorded_once() {
    assert_eq!(context_from_status(5), Ok(5));
    assert_eq!(
        context_from_status(-2),
        Err(ExecutorError::Foreign {
            step: KrunStep::CreateCtx,
            rc: -2
        })
    );
    assert_eq!(claim_context(None, 5), Ok(5));
    assert_eq!(
        claim_context(Some(5), 6),
        Err(ExecutorError::ContextAlreadyInitialized)
    );
}

#[test]
fn prepare_names_failed_step() {
    let mut spec = krun_spec();
    let before = spec.clone();
    assert_eq!(
        modify_spec_for_libkrun(&mut spec, &DeviceProbe::Failed("EPERM".to_string())),
        Err(KrunError::Other(
            "modify_spec_device: stat `/dev/kvm`: EPERM".to_string()
        ))
    );
    assert_eq!(spec, before);
}
