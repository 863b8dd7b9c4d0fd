//! Tests of the typed data model: errors, abilities, files, storages,
//! ports, camera lists, events and the widget tree.

use gphoto2::abilities::{
    Abilities, CameraDriverStatus, CameraOperations, DeviceType, FileOperations,
    FolderOperations, UsbInfo,
};
use gphoto2::camera::CameraEvent;
use gphoto2::error::{Error, ErrorKind};
use gphoto2::file::{CameraFile, CameraFilePath, FileType};
use gphoto2::filesys::{
    AccessType, FilePermissions, FileStatus, FileInfo, FileInfoAudio, FileInfoFile,
    FileInfoPreview, FilesystemType, StorageType,
};
use gphoto2::list::{CameraDescriptor, CameraList};
use gphoto2::port::{PortInfo, PortType};
use gphoto2::widget::{
    ButtonWidget, DateWidget, GroupWidget, RadioWidget, TextWidget, ToggleWidget, Widget,
    WidgetBase,
};

fn base(id: i32, name: &str, label: &str) -> WidgetBase {
    WidgetBase {
        id,
        name: name.to_string(),
        label: label.to_string(),
        info: String::new(),
        readonly: false,
    }
}

#[test]
fn error_kind_maps_every_known_code() {
    let cases: Vec<(i32, ErrorKind)> = vec![
        (-1, ErrorKind::Other),
        (-2, ErrorKind::BadParameters),
        (-3, ErrorKind::NoMemory),
        (-5, ErrorKind::UnknownPort),
        (-6, ErrorKind::NotSupported),
        (-7, ErrorKind::Io),
        (-8, ErrorKind::FixedLimitExceeded),
        (-10, ErrorKind::Timeout),
        (-53, ErrorKind::IoUsbClaim),
        (-102, ErrorKind::CorruptedData),
        (-103, ErrorKind::FileExists),
        (-105, ErrorKind::ModelNotFound),
        (-107, ErrorKind::DirectoryNotFound),
        (-108, ErrorKind::FileNotFound),
        (-109, ErrorKind::DirectoryExists),
        (-110, ErrorKind::CameraBusy),
        (-111, ErrorKind::PathNotAbsolute),
        (-113, ErrorKind::CameraError),
        (-114, ErrorKind::OsFailure),
        (-115, ErrorKind::NoSpace),
        (-999, ErrorKind::Other),
    ];
    for (code, kind) in cases {
        assert_eq!(Error::new(code, None).kind(), kind, "code {code}");
    }
}

#[test]
fn error_check_splits_on_sign() {
    assert_eq!(Error::check(0), Ok(0));
    assert_eq!(Error::check(12), Ok(12));
    let err = Error::check(-110).unwrap_err();
    assert_eq!(err.kind(), ErrorKind::CameraBusy);
    assert_eq!(err.info, None);
}

#[test]
fn error_message_carries_the_detail() {
    let e = Error::new(-1, Some("lens cap on".to_string()));
    assert_eq!(e.message(), "lens cap on");
    assert_eq!(e.code(), -1);
    assert_eq!(e.info(), &Some("lens cap on".to_string()));
    assert_eq!(Error::new(-1, None).message(), "");
    assert_eq!(Error::new(-1, None).info(), &None);
}

#[test]
fn abilities_getters_return_the_record() {
    let abilities = Abilities {
        id: "PTP".to_string(),
        model: "Nikon DSC D3400".to_string(),
        status: CameraDriverStatus::Production,
        operations: CameraOperations(1 | 8 | 16),
        file_operations: FileOperations(2 | 8),
        folder_operations: FolderOperations(4),
        device_type: DeviceType::Camera,
        usb_info: UsbInfo { vendor: 0x04b0, product: 0x0441, class: 6, subclass: 1, protocol: 1 },
    };
    assert_eq!(abilities.id(), "PTP");
    assert_eq!(abilities.model(), "Nikon DSC D3400");
    assert_eq!(abilities.driver_status(), CameraDriverStatus::Production);
    assert_eq!(abilities.device_type(), DeviceType::Camera);
    assert_eq!(abilities.usb_info().vendor, 0x04b0);
    assert_eq!(abilities.usb_info().protocol, 1);

    let ops = abilities.camera_operations();
    assert!(ops.capture_image());
    assert!(!ops.capture_video());
    assert!(!ops.capture_audio());
    assert!(ops.capture_preview());
    assert!(ops.configure());
    assert!(!ops.trigger_capture());

    let file_ops = abilities.file_operations();
    assert!(file_ops.delete());
    assert!(file_ops.preview());
    assert!(!file_ops.raw());
    assert!(!file_ops.audio());
    assert!(!file_ops.exif());

    let folder_ops = abilities.folder_operations();
    assert!(!folder_ops.delete_all());
    assert!(!folder_ops.put_file());
    assert!(folder_ops.make_dir());
    assert!(!folder_ops.remove_dir());
}

#[test]
fn driver_status_and_device_type_codes() {
    assert_eq!(CameraDriverStatus::from_code(0), Some(CameraDriverStatus::Production));
    assert_eq!(CameraDriverStatus::from_code(1), Some(CameraDriverStatus::Testing));
    assert_eq!(CameraDriverStatus::from_code(2), Some(CameraDriverStatus::Experimental));
    assert_eq!(CameraDriverStatus::from_code(3), Some(CameraDriverStatus::Deprecated));
    assert_eq!(CameraDriverStatus::from_code(4), None);
    assert_eq!(DeviceType::from_code(0), Some(DeviceType::Camera));
    assert_eq!(DeviceType::from_code(1), Some(DeviceType::AudioPlayer));
    assert_eq!(DeviceType::from_code(2), None);
}

#[test]
fn file_type_codes_round_trip() {
    let all = [
        FileType::Preview,
        FileType::Normal,
        FileType::Raw,
        FileType::Audio,
        FileType::Exif,
        FileType::Metadata,
    ];
    for t in all {
        assert_eq!(FileType::from_code(t.code()), Some(t));
    }
    assert_eq!(FileType::from_code(1), Some(FileType::Normal));
    assert_eq!(FileType::from_code(6), None);
}

#[test]
fn camera_file_path_getters() {
    let path = CameraFilePath {
        folder: "/store_00010001/DCIM/100NIKON".to_string(),
        name: "DSC_0001.JPG".to_string(),
    };
    assert_eq!(path.folder(), "/store_00010001/DCIM/100NIKON");
    assert_eq!(path.name(), "DSC_0001.JPG");
}

#[test]
fn camera_file_holds_identity_and_data() {
    let empty = CameraFile::new();
    assert_eq!(empty.name(), "");
    assert_eq!(empty.mime_type(), "");
    assert_eq!(empty.size(), 0);

    let file = CameraFile {
        name: "capt0000.jpg".to_string(),
        mime_type: "image/jpeg".to_string(),
        mtime: 1_700_000_000,
        data: vec![0xff, 0xd8, 0xff, 0xe0],
    };
    assert_eq!(file.name(), "capt0000.jpg");
    assert_eq!(file.mime_type(), "image/jpeg");
    assert_eq!(file.mtime(), 1_700_000_000);
    assert_eq!(file.size(), 4);
    assert_eq!(file.get_data(), &vec![0xff, 0xd8, 0xff, 0xe0]);
}

#[test]
fn storage_enum_codes() {
    assert_eq!(StorageType::from_code(0), Some(StorageType::Unknown));
    assert_eq!(StorageType::from_code(1), Some(StorageType::FixedRom));
    assert_eq!(StorageType::from_code(2), Some(StorageType::RemovableRom));
    assert_eq!(StorageType::from_code(3), Some(StorageType::FixedRam));
    assert_eq!(StorageType::from_code(4), Some(StorageType::RemovableRam));
    assert_eq!(StorageType::from_code(5), None);

    assert_eq!(FilesystemType::from_code(0), Some(FilesystemType::Unknown));
    assert_eq!(FilesystemType::from_code(1), Some(FilesystemType::Flat));
    assert_eq!(FilesystemType::from_code(2), Some(FilesystemType::Tree));
    assert_eq!(FilesystemType::from_code(3), Some(FilesystemType::Dcf));
    assert_eq!(FilesystemType::from_code(4), None);

    assert_eq!(AccessType::from_code(0), Some(AccessType::Rw));
    assert_eq!(AccessType::from_code(1), Some(AccessType::Ro));
    assert_eq!(AccessType::from_code(2), Some(AccessType::RoDelete));
    assert_eq!(AccessType::from_code(3), None);
}

#[test]
fn file_info_masks_and_fields() {
    assert!(FileStatus(1).downloaded());
    assert!(!FileStatus(0).downloaded());
    assert!(FilePermissions(1).read());
    assert!(!FilePermissions(1).delete());
    assert!(FilePermissions(3).read());
    assert!(FilePermissions(3).delete());

    let info = FileInfo {
        preview: FileInfoPreview {
            status: Some(FileStatus(0)),
            size: Some(4096),
            mime_type: Some("image/jpeg".to_string()),
            width: Some(160),
            height: Some(120),
        },
        file: FileInfoFile {
            status: Some(FileStatus(1)),
            size: Some(5_242_880),
            mime_type: Some("image/jpeg".to_string()),
            width: Some(6000),
            height: Some(4000),
            permissions: Some(FilePermissions(3)),
            mtime: Some(1_700_000_000),
        },
        audio: FileInfoAudio { status: None, size: None, mime_type: None },
    };
    assert_eq!(info.preview().width, Some(160));
    assert!(info.file().status.unwrap().downloaded());
    assert!(info.file().permissions.unwrap().delete());
    assert_eq!(info.file().mtime, Some(1_700_000_000));
    assert_eq!(info.audio().size, None);
}

#[test]
fn port_type_codes() {
    assert_eq!(PortType::new(0), None);
    assert_eq!(PortType::new(1), Some(PortType::Serial));
    assert_eq!(PortType::new(4), Some(PortType::Usb));
    assert_eq!(PortType::new(8), Some(PortType::Disk));
    assert_eq!(PortType::new(16), Some(PortType::PTPIp));
    assert_eq!(PortType::new(32), Some(PortType::Ip));
    assert_eq!(PortType::new(64), Some(PortType::UsbDiskDirect));
    assert_eq!(PortType::new(128), Some(PortType::UsbScsi));
    assert_eq!(PortType::new(2), None);
}

#[test]
fn port_info_getters() {
    let port = PortInfo {
        name: "Universal Serial Bus".to_string(),
        path: "usb:001,007".to_string(),
        port_type_code: 4,
    };
    assert_eq!(port.name(), "Universal Serial Bus");
    assert_eq!(port.path(), "usb:001,007");
    assert_eq!(port.port_type(), Some(PortType::Usb));
}

#[test]
fn camera_list_lookups() {
    let mut list = CameraList::new();
    assert_eq!(list.count(), 0);
    list.entries.push(CameraDescriptor {
        model: "Nikon DSC D3400".to_string(),
        port: "usb:001,007".to_string(),
    });
    list.entries.push(CameraDescriptor {
        model: "Canon EOS 550D".to_string(),
        port: "usb:001,009".to_string(),
    });
    assert_eq!(list.count(), 2);
    assert_eq!(list.get_name_at_unchecked(0), "Nikon DSC D3400");
    assert_eq!(list.get_value_at_unchecked(0), "usb:001,007");
    assert_eq!(list.get(1).model, "Canon EOS 550D");
    assert_eq!(list.get(1).port, "usb:001,009");
}

#[test]
fn camera_event_classification() {
    let path = CameraFilePath { folder: "/DCIM".to_string(), name: "IMG_1.JPG".to_string() };
    let text = "driver hiccup".to_string();

    match CameraEvent::classify(0, text.clone(), path.clone()) {
        CameraEvent::Unknown(s) => assert_eq!(s, "driver hiccup"),
        other => panic!("expected unknown event, got {other:?}"),
    }
    assert!(matches!(CameraEvent::classify(1, text.clone(), path.clone()), CameraEvent::Timeout));
    match CameraEvent::classify(2, text.clone(), path.clone()) {
        CameraEvent::NewFile(p) => assert_eq!(p.name(), "IMG_1.JPG"),
        other => panic!("expected new file event, got {other:?}"),
    }
    match CameraEvent::classify(3, text.clone(), path.clone()) {
        CameraEvent::NewFolder(p) => assert_eq!(p.folder(), "/DCIM"),
        other => panic!("expected new folder event, got {other:?}"),
    }
    assert!(matches!(
        CameraEvent::classify(4, text.clone(), path.clone()),
        CameraEvent::CaptureComplete
    ));
    assert!(matches!(
        CameraEvent::classify(5, text.clone(), path.clone()),
        CameraEvent::FileChanged(_)
    ));
    // A code outside the known range stays an unknown event with its text.
    match CameraEvent::classify(99, text, path) {
        CameraEvent::Unknown(s) => assert_eq!(s, "driver hiccup"),
        other => panic!("expected unknown event, got {other:?}"),
    }
}

fn sample_config_tree() -> GroupWidget {
    // main window
    // ├── actions (section)
    // │   └── autofocusdrive (toggle)
    // └── settings (section)
    //     ├── datetime (date)
    //     ├── iso (radio)
    //     └── artist (text)
    GroupWidget {
        base: base(1, "main", "Camera and Driver Configuration"),
        children: vec![
            Widget::Group(GroupWidget {
                base: base(2, "actions", "Camera Actions"),
                children: vec![Widget::Toggle(ToggleWidget {
                    base: base(3, "autofocusdrive", "Drive Nikon DSLR Autofocus"),
                    raw_state: 0,
                })],
            }),
            Widget::Group(GroupWidget {
                base: base(4, "settings", "Camera Settings"),
                children: vec![
                    Widget::Date(DateWidget {
                        base: base(5, "datetime", "Camera Date and Time"),
                        timestamp: 1_600_000_000,
                    }),
                    Widget::Radio(RadioWidget {
                        base: base(6, "iso", "ISO Speed"),
                        choices: vec!["100".to_string(), "200".to_string(), "400".to_string()],
                        choice: "100".to_string(),
                    }),
                    Widget::Text(TextWidget {
                        base: base(7, "artist", "Artist"),
                        value: "".to_string(),
                    }),
                ],
            }),
        ],
    }
}

#[test]
fn widget_base_getters() {
    let mut b = base(42, "iso", "ISO Speed");
    b.info = "ISO sensitivity".to_string();
    b.readonly = true;
    assert_eq!(b.id(), 42);
    assert_eq!(b.name(), "iso");
    assert_eq!(b.label(), "ISO Speed");
    assert_eq!(b.info(), "ISO sensitivity");
    assert!(b.readonly());
}

#[test]
fn group_children_by_index() {
    let tree = sample_config_tree();
    assert_eq!(tree.children_count(), 2);
    assert_eq!(tree.get_child(0).unwrap().base().name(), "actions");
    assert_eq!(tree.get_child(1).unwrap().base().name(), "settings");
    let err = tree.get_child(2).unwrap_err();
    assert_eq!(err.kind(), ErrorKind::BadParameters);
}

#[test]
fn group_search_descends_depth_first() {
    let tree = sample_config_tree();

    let iso = tree.get_child_by_name("iso").unwrap();
    assert_eq!(iso.base().id(), 6);
    assert_eq!(iso.base().label(), "ISO Speed");

    let focus = tree.get_child_by_label("Drive Nikon DSLR Autofocus").unwrap();
    assert_eq!(focus.base().name(), "autofocusdrive");

    let datetime = tree.get_child_by_id(5).unwrap();
    assert_eq!(datetime.base().name(), "datetime");

    let missing = tree.get_child_by_name("whitebalance").unwrap_err();
    assert_eq!(missing.kind(), ErrorKind::BadParameters);
}

#[test]
fn group_search_returns_first_match_in_order() {
    // Two descendants share a name; depth-first order decides which wins.
    let tree = GroupWidget {
        base: base(1, "main", "Main"),
        children: vec![
            Widget::Group(GroupWidget {
                base: base(2, "section", "First Section"),
                children: vec![Widget::Text(TextWidget {
                    base: base(3, "serialnumber", "Serial Number (inner)"),
                    value: "A".to_string(),
                })],
            }),
            Widget::Text(TextWidget {
                base: base(4, "serialnumber", "Serial Number (outer)"),
                value: "B".to_string(),
            }),
        ],
    };
    let found = tree.get_child_by_name("serialnumber").unwrap();
    assert_eq!(found.base().id(), 3);
}

#[test]
fn widget_iterator_walks_children_in_order() {
    let tree = sample_config_tree();
    let mut iter = tree.children_iter();
    assert_eq!(iter.len(), 2);
    let first = iter.next().unwrap();
    assert_eq!(first.base().name(), "actions");
    assert_eq!(iter.len(), 1);
    let second = iter.next().unwrap();
    assert_eq!(second.base().name(), "settings");
    assert!(iter.next().is_none());
    assert_eq!(iter.len(), 0);
}

#[test]
fn text_widget_value() {
    let mut w = TextWidget { base: base(7, "artist", "Artist"), value: "".to_string() };
    assert_eq!(w.value(), "");
    w.set_value("Ansel Adams").unwrap();
    assert_eq!(w.value(), "Ansel Adams");
}

#[test]
fn toggle_widget_states() {
    let mut w = ToggleWidget { base: base(3, "capture", "Capture"), raw_state: 2 };
    assert_eq!(w.toggled(), None);
    w.set_toggled(true);
    assert_eq!(w.toggled(), Some(true));
    w.set_toggled(false);
    assert_eq!(w.toggled(), Some(false));
}

#[test]
fn radio_widget_choices() {
    let mut w = RadioWidget {
        base: base(6, "iso", "ISO Speed"),
        choices: vec!["100".to_string(), "200".to_string(), "400".to_string()],
        choice: "100".to_string(),
    };
    assert_eq!(w.choice(), "100");
    w.set_choice("400").unwrap();
    assert_eq!(w.choice(), "400");

    let mut choices = w.choices_iter();
    assert_eq!(choices.len(), 3);
    assert_eq!(choices.next().unwrap(), "100");
    assert_eq!(choices.next().unwrap(), "200");
    assert_eq!(choices.next().unwrap(), "400");
    assert!(choices.next().is_none());
}

#[test]
fn date_widget_timestamp() {
    let mut w = DateWidget { base: base(5, "datetime", "Date and Time"), timestamp: 0 };
    assert_eq!(w.timestamp(), 0);
    w.set_timestamp(1_600_000_000);
    assert_eq!(w.timestamp(), 1_600_000_000);
}

#[test]
fn button_widget_carries_base() {
    let w = Widget::Button(ButtonWidget { base: base(9, "autofocus", "Autofocus") });
    assert_eq!(w.base().name(), "autofocus");
}
