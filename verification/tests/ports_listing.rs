use serial_term::ports::{kind_label, ports_heading, usb_id_label, PortKind};

#[test]
fn heading_counts_the_ports() {
    assert_eq!(ports_heading(0), "No ports found.");
    assert_eq!(ports_heading(1), "Found 1 port:");
    assert_eq!(ports_heading(2), "Found 2 ports:");
    assert_eq!(ports_heading(12), "Found 12 ports:");
    assert_eq!(ports_heading(240), "Found 240 ports:");
}

#[test]
fn usb_ids_are_four_hex_digits() {
    assert_eq!(usb_id_label(0x1a2b, 0x03c4), "VID:1a2b PID:03c4");
    assert_eq!(usb_id_label(0, 0xFFFF), "VID:0000 PID:ffff");
}

#[test]
fn port_kinds_have_labels() {
    assert_eq!(kind_label(&PortKind::Usb(1, 2)), "USB");
    assert_eq!(kind_label(&PortKind::Bluetooth), "Bluetooth");
    assert_eq!(kind_label(&PortKind::Pci), "PCI");
    assert_eq!(kind_label(&PortKind::Unknown), "Unknown");
}
