//! The configuration of a machine that is described by an extracted
//! hardware key, and what every configuration derives from its fields.

use vstd::prelude::*;

use crate::attestation::HardwareConfig;
use crate::crypto::random_uuid;
use crate::document::{Dictionary, Doc, PlistValue};
use crate::hex::{encode_hex, hex_text};
use crate::text::{before_whitespace, concat2, concat3, first_word, to_uppercase, uppercase};

verus! {

/// What a device states of itself when it asks to be activated.
#[derive(Debug)]
pub struct ActivationInfo {
    pub activation_randomness: String,
    pub activation_state: String,
    pub build_version: String,
    pub device_cert_request: Vec<u8>,
    pub device_class: String,
    pub product_type: String,
    pub product_version: String,
    pub serial_number: String,
    pub unique_device_id: String,
}

/// What a device states of itself when it registers.
#[derive(Debug)]
pub struct RegisterMeta {
    pub hardware_version: String,
    pub os_version: String,
    pub software_version: String,
}

/// What a device states of itself in diagnostics.
#[derive(Debug)]
pub struct DebugMeta {
    pub user_version: String,
    pub hardware_version: String,
    pub serial_number: String,
}

/// The address that login delegates are requested from.
pub open spec fn login_url() -> Seq<char> {
    "https://setup.icloud.com/setup/prefpane/loginDelegates"@
}

/// The client description for `item`: the product, the system with its
/// version and build, and the item, each in angle brackets.
pub open spec fn mme_clientinfo_text(
    product: Seq<char>,
    version: Seq<char>,
    build: Seq<char>,
    item: Seq<char>,
) -> Seq<char> {
    "<"@ + product + "> <macOS;"@ + version + ";"@ + build + "> <"@ + item + ">"@
}

/// The version description: system, version, build and product in square
/// brackets.
pub open spec fn version_ua_text(version: Seq<char>, build: Seq<char>, product: Seq<char>) -> Seq<
    char,
> {
    "[macOS,"@ + version + ","@ + build + ","@ + product + "]"@
}

/// The system description of a registration: system, version and build.
pub open spec fn os_version_text(version: Seq<char>, build: Seq<char>) -> Seq<char> {
    "macOS,"@ + version + ","@ + build
}

/// The name of a device with the given serial number.
pub open spec fn device_name_text(serial: Seq<char>) -> Seq<char> {
    "Mac-"@ + serial
}

/// The user agent for `item`: the item, a space, and the first word of the
/// cloud user agent. There is none where the cloud user agent is a single
/// word.
pub open spec fn normal_ua_text(item: Seq<char>, icloud_ua: Seq<char>) -> Option<Seq<char>> {
    match first_word(icloud_ua) {
        Some(word) => Some(item + " "@ + word),
        None => None,
    }
}

/// The hardware headers of the login service: the board serial, the ROM in
/// lower-case hexadecimal, and the serial number.
pub open spec fn gsa_hardware_headers(mlb: Seq<char>, rom: Seq<u8>, serial: Seq<char>) -> Seq<
    (Seq<char>, Seq<char>),
> {
    seq![
        ("X-Apple-I-MLB"@, mlb),
        ("X-Apple-I-ROM"@, hex_text(rom)),
        ("X-Apple-I-SRL-NO"@, serial),
    ]
}

/// The private data of a login-delegates request. `elapsed` is the time
/// since the first of January 2001 in seconds, as text.
pub open spec fn private_data(
    build: Seq<char>,
    version: Seq<char>,
    device_id: Seq<char>,
    elapsed: Seq<char>,
) -> Seq<(Seq<char>, Doc)> {
    seq![
        ("ap"@, Doc::String("0"@)),
        ("d"@, Doc::String(elapsed)),
        ("dt"@, Doc::Integer(1)),
        ("gt"@, Doc::String("0"@)),
        ("h"@, Doc::String("1"@)),
        ("m"@, Doc::String("0"@)),
        ("p"@, Doc::String("0"@)),
        ("pb"@, Doc::String(build)),
        ("pn"@, Doc::String("macOS"@)),
        ("pv"@, Doc::String(version)),
        ("s"@, Doc::String("0"@)),
        ("t"@, Doc::String("0"@)),
        ("u"@, Doc::String(uppercase(device_id))),
        ("v"@, Doc::String("1"@)),
    ]
}

/// Builds the client description for `item`.
pub fn build_mme_clientinfo(product: &str, version: &str, build: &str, item: &str) -> (res: String)
    ensures
        res@ == mme_clientinfo_text(product@, version@, build@, item@),
{
    let mut out = "<".to_owned();
    out.append(product);
    out.append("> <macOS;");
    out.append(version);
    out.append(";");
    out.append(build);
    out.append("> <");
    out.append(item);
    out.append(">");
    out
}

/// Builds the version description.
pub fn build_version_ua(version: &str, build: &str, product: &str) -> (res: String)
    ensures
        res@ == version_ua_text(version@, build@, product@),
{
    let mut out = "[macOS,".to_owned();
    out.append(version);
    out.append(",");
    out.append(build);
    out.append(",");
    out.append(product);
    out.append("]");
    out
}

/// Builds the system description of a registration.
pub fn build_os_version(version: &str, build: &str) -> (res: String)
    ensures
        res@ == os_version_text(version@, build@),
{
    let mut out = "macOS,".to_owned();
    out.append(version);
    out.append(",");
    out.append(build);
    out
}

/// Builds the user agent for `item`.
pub fn build_normal_ua(item: &str, icloud_ua: &str) -> (res: Option<String>)
    ensures
        res is Some <==> normal_ua_text(item@, icloud_ua@) is Some,
        res is Some ==> res->0@ == normal_ua_text(item@, icloud_ua@)->0,
{
    match before_whitespace(icloud_ua) {
        Some(word) => Some(concat3(item, " ", word.as_str())),
        None => None,
    }
}

/// Builds the hardware headers of the login service.
pub fn build_gsa_hardware_headers(mlb: &str, rom: &[u8], serial: &str) -> (res: Vec<
    (String, String),
>)
    ensures
        Seq::new(res@.len(), |i: int| (res@[i].0@, res@[i].1@)) == gsa_hardware_headers(
            mlb@,
            rom@,
            serial@,
        ),
{
    let mut out: Vec<(String, String)> = Vec::new();
    out.push(("X-Apple-I-MLB".to_owned(), mlb.to_owned()));
    out.push(("X-Apple-I-ROM".to_owned(), encode_hex(rom)));
    out.push(("X-Apple-I-SRL-NO".to_owned(), serial.to_owned()));
    assert(Seq::new(out@.len(), |i: int| (out@[i].0@, out@[i].1@)) =~= gsa_hardware_headers(
        mlb@,
        rom@,
        serial@,
    ));
    out
}

/// Builds the private data of a login-delegates request.
pub fn build_private_data(build: &str, version: &str, device_id: &str, elapsed: &str) -> (res:
    Dictionary)
    ensures
        res@ == private_data(build@, version@, device_id@, elapsed@),
{
    let upper = to_uppercase(device_id);
    let mut out = Dictionary::new();
    out.push("ap", PlistValue::text("0"));
    out.push("d", PlistValue::text(elapsed));
    out.push("dt", PlistValue::Integer(1));
    out.push("gt", PlistValue::text("0"));
    out.push("h", PlistValue::text("1"));
    out.push("m", PlistValue::text("0"));
    out.push("p", PlistValue::text("0"));
    out.push("pb", PlistValue::text(build));
    out.push("pn", PlistValue::text("macOS"));
    out.push("pv", PlistValue::text(version));
    out.push("s", PlistValue::text("0"));
    out.push("t", PlistValue::text("0"));
    out.push("u", PlistValue::text(upper.as_str()));
    out.push("v", PlistValue::text("1"));
    assert(out@ =~= private_data(build@, version@, device_id@, elapsed@));
    out
}

/// A machine described by an extracted hardware key.
#[derive(Debug)]
pub struct MacOSConfig {
    /// The identity of the hardware.
    pub inner: HardwareConfig,
    /// The version of the system.
    pub version: String,
    /// The version of the registration protocol.
    pub protocol_version: u32,
    /// The id of the device.
    pub device_id: String,
    /// The user agent of the cloud helper.
    pub icloud_ua: String,
    /// The version of the account framework.
    pub aoskit_version: String,
    /// The unique device id, where it is known.
    pub udid: Option<String>,
    /// The address of a relay that performs the attestation, if one is used.
    pub nac_relay_url: Option<String>,
    /// The bearer token of the relay.
    pub relay_token: Option<String>,
    /// The fingerprint of the relay's certificate, in hexadecimal.
    pub relay_cert_fp: Option<String>,
}

/// Where validation data comes from.
#[derive(Debug)]
pub enum ValidationSource {
    /// A relay: the address to post to, and the value of the authorization
    /// header where the relay asks for one.
    Relay { url: String, authorization: Option<String> },
    /// The attestation handshake on this machine.
    Handshake,
}

impl MacOSConfig {
    /// What the device states of itself for its activation, with the given
    /// randomness.
    pub fn build_activation_info_with(&self, csr: Vec<u8>, randomness: String) -> (res:
        ActivationInfo)
        ensures
            res.activation_randomness == randomness,
            res.activation_state@ == "Unactivated"@,
            res.build_version@ == self.inner.os_build_num@,
            res.device_cert_request == csr,
            res.device_class@ == "MacOS"@,
            res.product_type@ == self.inner.product_name@,
            res.product_version@ == self.version@,
            res.serial_number@ == self.inner.platform_serial_number@,
            res.unique_device_id@ == uppercase(self.device_id@),
    {
        ActivationInfo {
            activation_randomness: randomness,
            activation_state: "Unactivated".to_owned(),
            build_version: self.inner.os_build_num.clone(),
            device_cert_request: csr,
            device_class: "MacOS".to_owned(),
            product_type: self.inner.product_name.clone(),
            product_version: self.version.clone(),
            serial_number: self.inner.platform_serial_number.clone(),
            unique_device_id: to_uppercase(self.device_id.as_str()),
        }
    }

    /// What the device states of itself for its activation. The randomness
    /// is a fresh identifier in upper case.
    pub fn build_activation_info(&self, csr: Vec<u8>) -> (res: ActivationInfo)
        ensures
            res.activation_state@ == "Unactivated"@,
            res.build_version@ == self.inner.os_build_num@,
            res.device_cert_request == csr,
            res.device_class@ == "MacOS"@,
            res.product_type@ == self.inner.product_name@,
            res.product_version@ == self.version@,
            res.serial_number@ == self.inner.platform_serial_number@,
            res.unique_device_id@ == uppercase(self.device_id@),
            exists|fresh: Seq<char>| res.activation_randomness@ == uppercase(fresh),
    {
        let fresh = random_uuid();
        self.build_activation_info_with(csr, to_uppercase(fresh.as_str()))
    }

    /// The unique device id, where it is known.
    pub fn get_udid(&self) -> (res: Option<String>)
        ensures
            res == self.udid,
    {
        self.udid.clone()
    }

    /// The user agent for `item`.
    pub fn get_normal_ua(&self, item: &str) -> (res: Option<String>)
        ensures
            res is Some <==> normal_ua_text(item@, self.icloud_ua@) is Some,
            res is Some ==> res->0@ == normal_ua_text(item@, self.icloud_ua@)->0,
    {
        build_normal_ua(item, self.icloud_ua.as_str())
    }

    /// The version of the account framework.
    pub fn get_aoskit_version(&self) -> (res: String)
        ensures
            res@ == self.aoskit_version@,
    {
        self.aoskit_version.clone()
    }

    /// The client description for `for_item`.
    pub fn get_mme_clientinfo(&self, for_item: &str) -> (res: String)
        ensures
            res@ == mme_clientinfo_text(
                self.inner.product_name@,
                self.version@,
                self.inner.os_build_num@,
                for_item@,
            ),
    {
        build_mme_clientinfo(
            self.inner.product_name.as_str(),
            self.version.as_str(),
            self.inner.os_build_num.as_str(),
            for_item,
        )
    }

    /// The version description.
    pub fn get_version_ua(&self) -> (res: String)
        ensures
            res@ == version_ua_text(
                self.version@,
                self.inner.os_build_num@,
                self.inner.product_name@,
            ),
    {
        build_version_ua(
            self.version.as_str(),
            self.inner.os_build_num.as_str(),
            self.inner.product_name.as_str(),
        )
    }

    /// The class of device that is activated.
    pub fn get_activation_device(&self) -> (res: String)
        ensures
            res@ == "MacOS"@,
    {
        "MacOS".to_owned()
    }

    /// The id of the device.
    pub fn get_device_uuid(&self) -> (res: String)
        ensures
            res@ == self.device_id@,
    {
        self.device_id.clone()
    }

    /// The name of the device.
    pub fn get_device_name(&self) -> (res: String)
        ensures
            res@ == device_name_text(self.inner.platform_serial_number@),
    {
        concat2("Mac-", self.inner.platform_serial_number.as_str())
    }

    /// Where validation data comes from: the relay where one is configured,
    /// with its bearer token where it has one, and the handshake on this
    /// machine otherwise.
    pub fn generate_validation_data(&self) -> (res: ValidationSource)
        ensures
            match self.nac_relay_url {
                None => res is Handshake,
                Some(relay) => {
                    &&& res matches ValidationSource::Relay { url, authorization }
                    &&& url@ == relay@
                    &&& match self.relay_token {
                        Some(token) => authorization is Some && authorization->0@ == "Bearer "@
                            + token@,
                        None => authorization is None,
                    }
                },
            },
    {
        match &self.nac_relay_url {
            Some(relay) => {
                let authorization = match &self.relay_token {
                    Some(token) => Some(crate::attestation::bearer(token.as_str())),
                    None => None,
                };
                ValidationSource::Relay { url: relay.clone(), authorization }
            },
            None => ValidationSource::Handshake,
        }
    }

    /// The version of the registration protocol.
    pub fn get_protocol_version(&self) -> (res: u32)
        ensures
            res == self.protocol_version,
    {
        self.protocol_version
    }

    /// What the device states of itself when it registers.
    pub fn get_register_meta(&self) -> (res: RegisterMeta)
        ensures
            res.hardware_version@ == self.inner.product_name@,
            res.os_version@ == os_version_text(self.version@, self.inner.os_build_num@),
            res.software_version@ == self.inner.os_build_num@,
    {
        RegisterMeta {
            hardware_version: self.inner.product_name.clone(),
            os_version: build_os_version(self.version.as_str(), self.inner.os_build_num.as_str()),
            software_version: self.inner.os_build_num.clone(),
        }
    }

    /// What the device states of itself in diagnostics.
    pub fn get_debug_meta(&self) -> (res: DebugMeta)
        ensures
            res.user_version@ == self.version@,
            res.hardware_version@ == self.inner.product_name@,
            res.serial_number@ == self.inner.platform_serial_number@,
    {
        DebugMeta {
            user_version: self.version.clone(),
            hardware_version: self.inner.product_name.clone(),
            serial_number: self.inner.platform_serial_number.clone(),
        }
    }

    /// The hardware headers of the login service.
    pub fn get_gsa_hardware_headers(&self) -> (res: Vec<(String, String)>)
        ensures
            Seq::new(res@.len(), |i: int| (res@[i].0@, res@[i].1@)) == gsa_hardware_headers(
                self.inner.mlb@,
                self.inner.rom@,
                self.inner.platform_serial_number@,
            ),
    {
        build_gsa_hardware_headers(
            self.inner.mlb.as_str(),
            self.inner.rom.as_slice(),
            self.inner.platform_serial_number.as_str(),
        )
    }

    /// The serial number of the machine.
    pub fn get_serial_number(&self) -> (res: String)
        ensures
            res@ == self.inner.platform_serial_number@,
    {
        self.inner.platform_serial_number.clone()
    }

    /// The address that login delegates are requested from.
    pub fn get_login_url(&self) -> (res: &'static str)
        ensures
            res@ == login_url(),
    {
        "https://setup.icloud.com/setup/prefpane/loginDelegates"
    }

    /// The private data of a login-delegates request. `elapsed` is the time
    /// since the first of January 2001 in seconds, as text.
    pub fn get_private_data(&self, elapsed: &str) -> (res: Dictionary)
        ensures
            res@ == private_data(
                self.inner.os_build_num@,
                self.version@,
                self.device_id@,
                elapsed@,
            ),
    {
        build_private_data(
            self.inner.os_build_num.as_str(),
            self.version.as_str(),
            self.device_id.as_str(),
            elapsed,
        )
    }
}

} // verus!
