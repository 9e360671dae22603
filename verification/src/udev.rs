//! The udev rules that give a user access to dongles.

use vstd::prelude::*;

use crate::device::{PRODUCT_BRIDGE_DEV, PRODUCT_FT234, VENDOR_FTDI, VENDOR_SMSC};
use crate::text;
use crate::text::hex4_string;

verus! {

/// The udev rule for devices of a vendor and product.
pub open spec fn rule_text(vendor: u16, product: u16) -> Seq<char> {
    "SUBSYSTEMS==\"usb\", ATTRS{idVendor}==\""@ + text::hex4(vendor)
        + "\", ATTRS{idProduct}==\""@ + text::hex4(product)
        + "\", TAG+=\"uaccess\", GROUP=\"plugdev\", MODE=\"0660\""@
}

/// The udev rule for devices of a vendor and product.
pub fn udev_rule(vendor: u16, product: u16) -> (rule: String)
    ensures
        rule@ == rule_text(vendor, product),
{
    let mut rule = "SUBSYSTEMS==\"usb\", ATTRS{idVendor}==\"".to_string();
    rule.append(hex4_string(vendor).as_str());
    rule.append("\", ATTRS{idProduct}==\"");
    rule.append(hex4_string(product).as_str());
    rule.append("\", TAG+=\"uaccess\", GROUP=\"plugdev\", MODE=\"0660\"");
    rule
}

/// The rules for the bridge and the serial adapter of a dongle.
pub open spec fn rules() -> Seq<Seq<char>> {
    seq![rule_text(VENDOR_SMSC, PRODUCT_BRIDGE_DEV), rule_text(VENDOR_FTDI, PRODUCT_FT234)]
}

/// The rules for the bridge and the serial adapter of a dongle.
pub fn udev_rules() -> (lines: Vec<String>)
    ensures
        text::texts(lines@) == rules(),
{
    let mut lines: Vec<String> = Vec::new();
    lines.push(udev_rule(VENDOR_SMSC, PRODUCT_BRIDGE_DEV));
    lines.push(udev_rule(VENDOR_FTDI, PRODUCT_FT234));
    lines
}

/// A rule names the vendor and the product that it is for, in four hexadecimal
/// digits each, and gives the user at the seat and a group access to the device.
pub proof fn rules_name_vendor_and_product(vendor: u16, product: u16)
    ensures
        ({
            let rule = rule_text(vendor, product);
            let names = "SUBSYSTEMS==\"usb\", ATTRS{idVendor}==\""@;
            let between = "\", ATTRS{idProduct}==\""@;
            &&& rule == names + text::hex4(vendor) + between + text::hex4(product)
                + "\", TAG+=\"uaccess\", GROUP=\"plugdev\", MODE=\"0660\""@
        }),
{
}

/// Rules for different devices are different.
pub proof fn rules_are_told_apart(vendor: u16, product: u16, other_vendor: u16, other_product: u16)
    ensures
        rule_text(vendor, product) == rule_text(other_vendor, other_product) <==> vendor
            == other_vendor && product == other_product,
{
    let (a, b) = (rule_text(vendor, product), rule_text(other_vendor, other_product));
    if a == b {
        let n = "SUBSYSTEMS==\"usb\", ATTRS{idVendor}==\""@.len() as int;
        let m = n + 4 + "\", ATTRS{idProduct}==\""@.len() as int;
        text::hex4_makes_up_the_number(vendor);
        text::hex4_makes_up_the_number(product);
        text::hex4_makes_up_the_number(other_vendor);
        text::hex4_makes_up_the_number(other_product);
        assert(a.subrange(n, n + 4) =~= text::hex4(vendor));
        assert(b.subrange(n, n + 4) =~= text::hex4(other_vendor));
        assert(a.subrange(m, m + 4) =~= text::hex4(product));
        assert(b.subrange(m, m + 4) =~= text::hex4(other_product));
    }
}

/// There are two rules, one for the bridge `0424:2530` and one for the serial
/// adapter `0403:6015`.
pub proof fn rules_are_for_bridge_and_adapter()
    ensures
        rules().len() == 2,
        rules()[0]
            == "SUBSYSTEMS==\"usb\", ATTRS{idVendor}==\"0424\", ATTRS{idProduct}==\"2530\", TAG+=\"uaccess\", GROUP=\"plugdev\", MODE=\"0660\""@,
        rules()[1]
            == "SUBSYSTEMS==\"usb\", ATTRS{idVendor}==\"0403\", ATTRS{idProduct}==\"6015\", TAG+=\"uaccess\", GROUP=\"plugdev\", MODE=\"0660\""@,
{
    reveal_strlit("SUBSYSTEMS==\"usb\", ATTRS{idVendor}==\"");
    reveal_strlit("\", ATTRS{idProduct}==\"");
    reveal_strlit("\", TAG+=\"uaccess\", GROUP=\"plugdev\", MODE=\"0660\"");
    reveal_strlit(
        "SUBSYSTEMS==\"usb\", ATTRS{idVendor}==\"0424\", ATTRS{idProduct}==\"2530\", TAG+=\"uaccess\", GROUP=\"plugdev\", MODE=\"0660\"",
    );
    reveal_strlit(
        "SUBSYSTEMS==\"usb\", ATTRS{idVendor}==\"0403\", ATTRS{idProduct}==\"6015\", TAG+=\"uaccess\", GROUP=\"plugdev\", MODE=\"0660\"",
    );
    assert(rule_text(0x0424, 0x2530)
        =~= "SUBSYSTEMS==\"usb\", ATTRS{idVendor}==\"0424\", ATTRS{idProduct}==\"2530\", TAG+=\"uaccess\", GROUP=\"plugdev\", MODE=\"0660\""@);
    assert(rule_text(0x0403, 0x6015)
        =~= "SUBSYSTEMS==\"usb\", ATTRS{idVendor}==\"0403\", ATTRS{idProduct}==\"6015\", TAG+=\"uaccess\", GROUP=\"plugdev\", MODE=\"0660\""@);
}

} // verus!
