use cantrip_proc_interface::{
    cantrip_pkg_mgmt_install, cantrip_pkg_mgmt_install_app, cantrip_pkg_mgmt_uninstall,
    cantrip_proc_ctrl_capscan, cantrip_proc_ctrl_capscan_bundle,
    cantrip_proc_ctrl_get_running_bundles, cantrip_proc_ctrl_start, cantrip_proc_ctrl_stop,
    encode_bundle_ids, install_reply, running_bundles_reply, Bundle, CPtr, CapSlot,
    ObjDescBundle, PackageManagementRequest, ProcessControlRequest, ProcessManagerError,
    SecurityRequestError, RAW_BUNDLE_ID_DATA_SIZE,
};

type Sent = Option<(Vec<u8>, Option<CPtr>)>;

fn padded(bytes: &[u8]) -> Vec<u8> {
    let mut reply = vec![0u8; RAW_BUNDLE_ID_DATA_SIZE];
    reply[..bytes.len()].copy_from_slice(bytes);
    reply
}

fn loaded_slot() -> CapSlot {
    let mut slot = CapSlot::new();
    slot.set_request_cap(77);
    slot
}

#[test]
fn install_hands_over_the_cnode_and_returns_the_assigned_id() {
    let pkg = ObjDescBundle { cnode: 42, descriptor: vec![9, 8, 7] };
    let mut slot = CapSlot::new();
    let mut sent: Sent = None;
    let r = cantrip_pkg_mgmt_install(&mut slot, &pkg, |req, cap| {
        sent = Some((req, cap));
        (ProcessManagerError::Success, padded(&[10, b'b', b'u', b'n', b'd', b'l', b'e', b'-', b'0', b'0', b'1']))
    });
    assert_eq!(r, Ok(String::from("bundle-001")));
    assert_eq!(sent, Some((vec![0u8, 9, 8, 7], Some(42))));
    assert_eq!(slot.held(), None);
}

#[test]
fn install_app_sends_the_id_and_the_capability() {
    let pkg = ObjDescBundle { cnode: 5, descriptor: vec![1] };
    let mut slot = CapSlot::new();
    let mut sent: Sent = None;
    let r = cantrip_pkg_mgmt_install_app(&mut slot, "hello", &pkg, |req, cap| {
        sent = Some((req, cap));
        (ProcessManagerError::Success, padded(&[]))
    });
    assert_eq!(r, Ok(()));
    assert_eq!(sent, Some((vec![1u8, 5, b'h', b'e', b'l', b'l', b'o', 1], Some(5))));
    assert_eq!(slot.held(), None);
}

#[test]
fn install_failure_passes_the_status_through() {
    let pkg = ObjDescBundle { cnode: 3, descriptor: vec![] };
    let mut slot = CapSlot::new();
    let r = cantrip_pkg_mgmt_install(&mut slot, &pkg, |_, _| {
        (ProcessManagerError::InstallFailed, padded(&[3, b'b', b'a', b'd']))
    });
    assert_eq!(r, Err(ProcessManagerError::InstallFailed));
}

#[test]
fn oversized_install_never_reaches_the_transport() {
    let pkg = ObjDescBundle { cnode: 3, descriptor: vec![0u8; 128] };
    let mut slot = loaded_slot();
    let mut called = false;
    let r = cantrip_pkg_mgmt_install(&mut slot, &pkg, |_, _| {
        called = true;
        (ProcessManagerError::Success, padded(&[]))
    });
    assert_eq!(r, Err(ProcessManagerError::SerializeError));
    assert!(!called);
    assert_eq!(slot.held(), None);
}

#[test]
fn uninstall_clears_a_stale_capability() {
    let mut slot = loaded_slot();
    let mut sent: Sent = None;
    let r = cantrip_pkg_mgmt_uninstall(&mut slot, "app", |req, cap| {
        sent = Some((req, cap));
        (ProcessManagerError::Success, padded(&[]))
    });
    assert_eq!(r, Ok(()));
    assert_eq!(sent, Some((vec![2u8, 3, b'a', b'p', b'p'], None)));
    assert_eq!(slot.held(), None);
}

#[test]
fn empty_enumeration_decodes_to_an_empty_list() {
    let mut slot = CapSlot::new();
    let mut sent: Sent = None;
    let reply = padded(&encode_bundle_ids(&Vec::new()).unwrap());
    let r = cantrip_proc_ctrl_get_running_bundles(&mut slot, |req, cap| {
        sent = Some((req, cap));
        (ProcessManagerError::Success, reply)
    });
    assert_eq!(r, Ok(Vec::<String>::new()));
    assert_eq!(sent, Some((vec![2u8], None)));
}

#[test]
fn enumeration_returns_the_running_bundles_in_order() {
    let mut slot = loaded_slot();
    let ids = vec![String::from("b"), String::from("a")];
    let reply = padded(&encode_bundle_ids(&ids).unwrap());
    let r = cantrip_proc_ctrl_get_running_bundles(&mut slot, |_, cap| {
        assert_eq!(cap, None);
        (ProcessManagerError::Success, reply)
    });
    assert_eq!(r, Ok(ids));
    assert_eq!(slot.held(), None);
}

#[test]
fn enumeration_with_a_garbled_reply_is_a_deserialize_error() {
    let mut slot = CapSlot::new();
    let r = cantrip_proc_ctrl_get_running_bundles(&mut slot, |_, _| {
        (ProcessManagerError::Success, vec![3u8, 1, b'a'])
    });
    assert_eq!(r, Err(ProcessManagerError::DeserializeError));
}

#[test]
fn start_of_a_missing_bundle_is_bundle_not_found() {
    let mut slot = CapSlot::new();
    let mut sent: Sent = None;
    let r = cantrip_proc_ctrl_start(&mut slot, "nonexistent", |req, cap| {
        sent = Some((req, cap));
        (ProcessManagerError::BundleNotFound, padded(&[]))
    });
    assert_eq!(r, Err(ProcessManagerError::BundleNotFound));
    let mut expected = vec![0u8, 11];
    expected.extend_from_slice(b"nonexistent");
    assert_eq!(sent, Some((expected, None)));
}

#[test]
fn success_status_is_ok_on_every_control_call() {
    let garbage = vec![0xffu8; RAW_BUNDLE_ID_DATA_SIZE];
    let mut slot = loaded_slot();
    assert_eq!(
        cantrip_proc_ctrl_start(&mut slot, "a", |_, _| (ProcessManagerError::Success, garbage.clone())),
        Ok(())
    );
    slot.set_request_cap(9);
    assert_eq!(
        cantrip_proc_ctrl_stop(&mut slot, "a", |_, _| (ProcessManagerError::Success, garbage.clone())),
        Ok(())
    );
    assert_eq!(slot.held(), None);
    assert_eq!(
        cantrip_proc_ctrl_capscan(&mut slot, |_, _| (ProcessManagerError::Success, garbage.clone())),
        Ok(())
    );
    assert_eq!(
        cantrip_proc_ctrl_capscan_bundle(&mut slot, "a", |_, _| {
            (ProcessManagerError::Success, garbage.clone())
        }),
        Ok(())
    );
}

#[test]
fn control_calls_send_their_variant_and_no_capability() {
    let cases: Vec<(u8, Option<&str>)> =
        vec![(0, Some("x")), (1, Some("x")), (3, None), (4, Some("x"))];
    for (tag, id) in cases {
        let mut slot = loaded_slot();
        let mut sent: Sent = None;
        let transport = |req: Vec<u8>, cap: Option<CPtr>| {
            sent = Some((req, cap));
            (ProcessManagerError::StopFailed, padded(&[]))
        };
        let r = match tag {
            0 => cantrip_proc_ctrl_start(&mut slot, id.unwrap(), transport),
            1 => cantrip_proc_ctrl_stop(&mut slot, id.unwrap(), transport),
            3 => cantrip_proc_ctrl_capscan(&mut slot, transport),
            _ => cantrip_proc_ctrl_capscan_bundle(&mut slot, id.unwrap(), transport),
        };
        assert_eq!(r, Err(ProcessManagerError::StopFailed));
        let mut expected = vec![tag];
        if id.is_some() {
            expected.extend_from_slice(&[1, b'x']);
        }
        assert_eq!(sent, Some((expected, None)));
        assert_eq!(slot.held(), None);
    }
}

#[test]
fn control_request_too_long_is_a_serialize_error() {
    let mut slot = loaded_slot();
    let id = "i".repeat(200);
    let r = cantrip_proc_ctrl_start(&mut slot, &id, |_, _| (ProcessManagerError::Success, padded(&[])));
    assert_eq!(r, Err(ProcessManagerError::SerializeError));
    assert_eq!(slot.held(), None);
}

#[test]
fn request_layout_matches_postcard() {
    let start = ProcessControlRequest::Start("abc").encode().unwrap();
    assert_eq!(start, postcard::to_allocvec(&(0u32, "abc")).unwrap());
    let scan = ProcessControlRequest::CapScanBundle("q").encode().unwrap();
    assert_eq!(scan, postcard::to_allocvec(&(4u32, "q")).unwrap());
    assert_eq!(ProcessControlRequest::GetRunningBundles.encode().unwrap(), vec![2u8]);
    assert_eq!(ProcessControlRequest::CapScan.encode().unwrap(), vec![3u8]);
    let un = PackageManagementRequest::Uninstall("zz").encode().unwrap();
    assert_eq!(un, postcard::to_allocvec(&(2u32, "zz")).unwrap());
}

#[test]
fn only_install_requests_carry_the_container_cap() {
    let pkg = ObjDescBundle { cnode: 11, descriptor: vec![] };
    assert_eq!(PackageManagementRequest::Install(&pkg).get_container_cap(), Some(11));
    assert_eq!(
        PackageManagementRequest::InstallApp { app_id: "a", pkg_contents: &pkg }.get_container_cap(),
        Some(11)
    );
    assert_eq!(PackageManagementRequest::Uninstall("a").get_container_cap(), None);
}

#[test]
fn reply_functions_read_only_on_success() {
    let list = padded(&encode_bundle_ids(&vec![String::from("r")]).unwrap());
    assert_eq!(running_bundles_reply(ProcessManagerError::Success, &list), Ok(vec![String::from("r")]));
    assert_eq!(
        running_bundles_reply(ProcessManagerError::BundleNotRunning, &list),
        Err(ProcessManagerError::BundleNotRunning)
    );
    let id = padded(&[2, b'i', b'd']);
    assert_eq!(install_reply(ProcessManagerError::Success, &id), Ok(String::from("id")));
    assert_eq!(
        install_reply(ProcessManagerError::BundleFound, &id),
        Err(ProcessManagerError::BundleFound)
    );
    assert_eq!(
        install_reply(ProcessManagerError::Success, &[0xffu8]),
        Err(ProcessManagerError::DeserializeError)
    );
}

#[test]
fn status_codes_and_conversion() {
    assert_eq!(ProcessManagerError::Success.code(), 0);
    assert_eq!(ProcessManagerError::BundleIdInvalid.code(), 1);
    assert_eq!(ProcessManagerError::BundleNotFound.code(), 3);
    assert_eq!(ProcessManagerError::SerializeError.code(), 9);
    assert_eq!(ProcessManagerError::CapScanFailed.code(), 17);
    for code in 0u8..=255 {
        match ProcessManagerError::from_code(code) {
            Some(e) => {
                assert!(code < 18);
                assert_eq!(e.code(), code);
                let r: Result<(), ProcessManagerError> = e.into();
                assert_eq!(r, e.into_result());
                if code == 0 {
                    assert_eq!(r, Ok(()));
                } else {
                    assert_eq!(r, Err(e));
                }
            }
            None => assert!(code >= 18),
        }
    }
}

#[test]
fn security_errors_map_to_one_status_each() {
    let mapped = [
        (SecurityRequestError::SreSuccess, ProcessManagerError::Success),
        (SecurityRequestError::SreBundleIdInvalid, ProcessManagerError::BundleIdInvalid),
        (SecurityRequestError::SreBundleNotFound, ProcessManagerError::BundleNotFound),
        (SecurityRequestError::SrePackageBufferLenInvalid, ProcessManagerError::PackageBufferLenInvalid),
        (SecurityRequestError::SreInstallFailed, ProcessManagerError::InstallFailed),
        (SecurityRequestError::SreUninstallFailed, ProcessManagerError::UninstallFailed),
        (SecurityRequestError::SreKeyNotFound, ProcessManagerError::UnknownError),
        (SecurityRequestError::SreObjCapInvalid, ProcessManagerError::UnknownError),
        (SecurityRequestError::SreTestFailed, ProcessManagerError::UnknownError),
        (SecurityRequestError::SreDeleteFirst, ProcessManagerError::UnknownError),
    ];
    for (err, status) in mapped {
        assert_eq!(ProcessManagerError::from(err), status);
    }
}

#[test]
fn interior_nul_is_an_invalid_bundle_id() {
    let err = cstr_core::CString::new(b"f\0oo".to_vec()).unwrap_err();
    assert_eq!(ProcessManagerError::from(err), ProcessManagerError::BundleIdInvalid);
}

#[test]
fn new_bundle_has_no_memory_yet() {
    let b = Bundle::new("com.example.app");
    assert_eq!(b.app_id, "com.example.app");
    assert_eq!(b.app_memory_size, 0);
}

#[test]
fn replies_longer_than_the_reply_buffer_are_rejected() {
    // 101 ids of one byte each: 1 + 101 * 2 bytes, past the 100-byte buffer.
    let mut long_reply = vec![101u8];
    for _ in 0..101 {
        long_reply.extend_from_slice(&[1, b'a']);
    }
    let mut slot = CapSlot::new();
    let r = cantrip_proc_ctrl_get_running_bundles(&mut slot, |_, _| {
        (ProcessManagerError::Success, long_reply.clone())
    });
    assert_eq!(r, Err(ProcessManagerError::DeserializeError));
    assert_eq!(
        running_bundles_reply(ProcessManagerError::Success, &long_reply),
        Err(ProcessManagerError::DeserializeError)
    );

    let mut long_id = vec![120u8];
    long_id.extend_from_slice(&[b'i'; 120]);
    let pkg = ObjDescBundle { cnode: 1, descriptor: vec![] };
    let r = cantrip_pkg_mgmt_install(&mut slot, &pkg, |_, _| {
        (ProcessManagerError::Success, long_id.clone())
    });
    assert_eq!(r, Err(ProcessManagerError::DeserializeError));
    assert_eq!(
        install_reply(ProcessManagerError::Success, &long_id),
        Err(ProcessManagerError::DeserializeError)
    );
    // A short list followed by padding past the buffer is rejected too.
    let mut padded_long = vec![1u8, 1, b'a'];
    padded_long.resize(RAW_BUNDLE_ID_DATA_SIZE + 1, 0);
    assert_eq!(
        running_bundles_reply(ProcessManagerError::Success, &padded_long),
        Err(ProcessManagerError::DeserializeError)
    );
    padded_long.truncate(RAW_BUNDLE_ID_DATA_SIZE);
    assert_eq!(
        running_bundles_reply(ProcessManagerError::Success, &padded_long),
        Ok(vec![String::from("a")])
    );
}
