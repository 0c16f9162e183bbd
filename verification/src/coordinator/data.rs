//! The devices the coordinator registers, and the data its REST interface
//! takes and gives for them.

use vstd::prelude::*;
use vstd::string::{StringSliceAdditionalSpecFns, StringExecFns};
use vstd::utf8::encode_utf8;
use std::collections::HashMap;
use crate::guid::{
    guid_value, guid_text, guid_string_to_u64, guid_be_to_string, is_guid_text,
    law_guid_text_written_back,
};
use crate::endianness::{Endianness, swap_bytes64};

verus! {

/// What is known of a registered device.
pub ghost struct VirtDeviceModel {
    pub virtual_device_name: Seq<char>,
    pub virtual_guid: u64,
    pub physical_device_name: Seq<char>,
    pub physical_guid: u64,
    pub qp_num: u64,
}

/// What a device registration holds.
pub ghost struct DeviceInputModel {
    pub virtual_device_guid_string: Seq<char>,
    pub physical_device_guid_string: Seq<char>,
    pub device_name: Seq<char>,
    pub parent_device_name: Seq<char>,
}

/// This is the data for the REST-API that is expected as payload of a REST-Request
/// when a new device should be registered.
#[derive(Debug)]
pub struct VirtualizedDeviceInput {
    virtual_device_guid_string: String,
    physical_device_guid_string: String,
    /// device name, e.g. ovey0
    device_name: String,
    /// parent device name, e.g. rxe0 or mlx0
    parent_device_name: String,
}

impl View for VirtualizedDeviceInput {
    type V = DeviceInputModel;

    closed spec fn view(&self) -> DeviceInputModel {
        DeviceInputModel {
            virtual_device_guid_string: self.virtual_device_guid_string@,
            physical_device_guid_string: self.physical_device_guid_string@,
            device_name: self.device_name@,
            parent_device_name: self.parent_device_name@,
        }
    }
}

impl VirtualizedDeviceInput {
    /// A registration with the given fields.
    pub fn new(
        virtual_device_guid_string: String,
        physical_device_guid_string: String,
        device_name: String,
        parent_device_name: String,
    ) -> (r: Self)
        ensures
            r@ == (DeviceInputModel {
                virtual_device_guid_string: virtual_device_guid_string@,
                physical_device_guid_string: physical_device_guid_string@,
                device_name: device_name@,
                parent_device_name: parent_device_name@,
            }),
    {
        VirtualizedDeviceInput {
            virtual_device_guid_string,
            physical_device_guid_string,
            device_name,
            parent_device_name,
        }
    }

    pub fn virtual_device_guid_string(&self) -> (r: &str)
        ensures
            r@ == self@.virtual_device_guid_string,
    {
        self.virtual_device_guid_string.as_str()
    }

    pub fn physical_device_guid_string(&self) -> (r: &str)
        ensures
            r@ == self@.physical_device_guid_string,
    {
        self.physical_device_guid_string.as_str()
    }

    pub fn device_name(&self) -> (r: &str)
        ensures
            r@ == self@.device_name,
    {
        self.device_name.as_str()
    }

    pub fn parent_device_name(&self) -> (r: &str)
        ensures
            r@ == self@.parent_device_name,
    {
        self.parent_device_name.as_str()
    }
}

/// The fields a builder has been given so far.
pub ghost struct InputBuilderModel {
    pub virtual_device_guid_string: Option<Seq<char>>,
    pub physical_device_guid_string: Option<Seq<char>>,
    pub device_name: Option<Seq<char>>,
    pub parent_device_name: Option<Seq<char>>,
}

/// The text of an optional string.
pub open spec fn opt_string_view(s: Option<String>) -> Option<Seq<char>> {
    match s {
        Some(t) => Some(t@),
        None => None,
    }
}

/// Builds a [`VirtualizedDeviceInput`] field by field.
#[derive(Debug)]
pub struct VirtualizedDeviceInputBuilder {
    virtual_device_guid_string: Option<String>,
    physical_device_guid_string: Option<String>,
    device_name: Option<String>,
    parent_device_name: Option<String>,
}

impl View for VirtualizedDeviceInputBuilder {
    type V = InputBuilderModel;

    closed spec fn view(&self) -> InputBuilderModel {
        InputBuilderModel {
            virtual_device_guid_string: opt_string_view(self.virtual_device_guid_string),
            physical_device_guid_string: opt_string_view(self.physical_device_guid_string),
            device_name: opt_string_view(self.device_name),
            parent_device_name: opt_string_view(self.parent_device_name),
        }
    }
}

impl Default for VirtualizedDeviceInputBuilder {
    fn default() -> (r: Self)
        ensures
            r@ == (InputBuilderModel {
                virtual_device_guid_string: None,
                physical_device_guid_string: None,
                device_name: None,
                parent_device_name: None,
            }),
    {
        VirtualizedDeviceInputBuilder {
            virtual_device_guid_string: None,
            physical_device_guid_string: None,
            device_name: None,
            parent_device_name: None,
        }
    }
}

/// The error of a build where the field `name` was not given.
pub open spec fn uninitialized_field_message(name: Seq<char>) -> Seq<char> {
    "`"@ + name + "` must be initialized"@
}

/// The error message of a build where the field `name` was not given.
fn uninitialized_field(name: &str) -> (r: String)
    ensures
        r@ == uninitialized_field_message(name@),
{
    let mut s = String::from_str("`");
    s.append(name);
    s.append("` must be initialized");
    s
}

/// What a build gives: the registration, or the error for the first field (in
/// declaration order) that was not given.
pub open spec fn build_result(b: InputBuilderModel) -> Result<DeviceInputModel, Seq<char>> {
    if b.virtual_device_guid_string is None {
        Err(uninitialized_field_message("virtual_device_guid_string"@))
    } else if b.physical_device_guid_string is None {
        Err(uninitialized_field_message("physical_device_guid_string"@))
    } else if b.device_name is None {
        Err(uninitialized_field_message("device_name"@))
    } else if b.parent_device_name is None {
        Err(uninitialized_field_message("parent_device_name"@))
    } else {
        Ok(
            DeviceInputModel {
                virtual_device_guid_string: b.virtual_device_guid_string->0,
                physical_device_guid_string: b.physical_device_guid_string->0,
                device_name: b.device_name->0,
                parent_device_name: b.parent_device_name->0,
            },
        )
    }
}

/// The view of a build's result.
pub open spec fn build_view(r: Result<VirtualizedDeviceInput, String>) -> Result<DeviceInputModel, Seq<char>> {
    match r {
        Ok(i) => Ok(i@),
        Err(e) => Err(e@),
    }
}

impl VirtualizedDeviceInputBuilder {
    pub fn virtual_device_guid_string(&mut self, value: &str) -> (r: &mut Self)
        ensures
            r@ == (InputBuilderModel { virtual_device_guid_string: Some(value@), ..old(self)@ }),
            *final(self) == *final(r),
    {
        self.virtual_device_guid_string = Some(value.to_string());
        self
    }

    pub fn physical_device_guid_string(&mut self, value: &str) -> (r: &mut Self)
        ensures
            r@ == (InputBuilderModel { physical_device_guid_string: Some(value@), ..old(self)@ }),
            *final(self) == *final(r),
    {
        self.physical_device_guid_string = Some(value.to_string());
        self
    }

    pub fn device_name(&mut self, value: &str) -> (r: &mut Self)
        ensures
            r@ == (InputBuilderModel { device_name: Some(value@), ..old(self)@ }),
            *final(self) == *final(r),
    {
        self.device_name = Some(value.to_string());
        self
    }

    pub fn parent_device_name(&mut self, value: &str) -> (r: &mut Self)
        ensures
            r@ == (InputBuilderModel { parent_device_name: Some(value@), ..old(self)@ }),
            *final(self) == *final(r),
    {
        self.parent_device_name = Some(value.to_string());
        self
    }

    /// Builds the registration; the error names the first field that was not given.
    pub fn build(&self) -> (r: Result<VirtualizedDeviceInput, String>)
        ensures
            build_view(r) == build_result(self@),
    {
        let v = match &self.virtual_device_guid_string {
            Some(s) => s.clone(),
            None => {
                return Err(uninitialized_field("virtual_device_guid_string"));
            },
        };
        let p = match &self.physical_device_guid_string {
            Some(s) => s.clone(),
            None => {
                return Err(uninitialized_field("physical_device_guid_string"));
            },
        };
        let d = match &self.device_name {
            Some(s) => s.clone(),
            None => {
                return Err(uninitialized_field("device_name"));
            },
        };
        let pd = match &self.parent_device_name {
            Some(s) => s.clone(),
            None => {
                return Err(uninitialized_field("parent_device_name"));
            },
        };
        Ok(VirtualizedDeviceInput::new(v, p, d, pd))
    }
}

/// A device registered at the coordinator.
#[derive(Debug)]
pub struct VirtualizedDevice {
    virtual_device_name: String,
    virtual_guid: u64,
    physical_device_name: String,
    physical_guid: u64,
    qp_num: u64,
}

impl View for VirtualizedDevice {
    type V = VirtDeviceModel;

    closed spec fn view(&self) -> VirtDeviceModel {
        VirtDeviceModel {
            virtual_device_name: self.virtual_device_name@,
            virtual_guid: self.virtual_guid,
            physical_device_name: self.physical_device_name@,
            physical_guid: self.physical_guid,
            qp_num: self.qp_num,
        }
    }
}

/// The device a registration creates: the GUID strings read as numbers, no QP.
#[verifier::opaque]
pub open spec fn device_of_input(i: DeviceInputModel) -> VirtDeviceModel {
    VirtDeviceModel {
        virtual_device_name: i.device_name,
        virtual_guid: guid_value(encode_utf8(i.virtual_device_guid_string))->0,
        physical_device_name: i.parent_device_name,
        physical_guid: guid_value(encode_utf8(i.physical_device_guid_string))->0,
        qp_num: 0,
    }
}

/// Both GUID strings of a registration denote GUIDs.
pub open spec fn input_guids_valid(i: DeviceInputModel) -> bool {
    &&& guid_value(encode_utf8(i.virtual_device_guid_string)) is Some
    &&& guid_value(encode_utf8(i.physical_device_guid_string)) is Some
}

impl VirtualizedDevice {
    pub fn virtual_device_name(&self) -> (r: &String)
        ensures
            r@ == self@.virtual_device_name,
    {
        &self.virtual_device_name
    }

    pub fn virtual_guid(&self) -> (r: u64)
        ensures
            r == self@.virtual_guid,
    {
        self.virtual_guid
    }

    pub fn physical_device_name(&self) -> (r: &String)
        ensures
            r@ == self@.physical_device_name,
    {
        &self.physical_device_name
    }

    pub fn physical_guid(&self) -> (r: u64)
        ensures
            r == self@.physical_guid,
    {
        self.physical_guid
    }

    pub fn qp_num(&self) -> (r: u64)
        ensures
            r == self@.qp_num,
    {
        self.qp_num
    }

    /// The device a registration creates.
    pub fn new(input: VirtualizedDeviceInput) -> (r: Self)
        requires
            input_guids_valid(input@),
        ensures
            r@ == device_of_input(input@),
    {
        reveal(device_of_input);
        let virtual_guid = guid_string_to_u64(input.virtual_device_guid_string());
        let physical_guid = guid_string_to_u64(input.physical_device_guid_string());
        VirtualizedDevice {
            virtual_device_name: input.device_name().to_string(),
            physical_device_name: input.parent_device_name().to_string(),
            virtual_guid,
            physical_guid,
            qp_num: 0,
        }
    }
}

/// What the coordinator answers for a device.
pub ghost struct DeviceDtoModel {
    pub virtual_device_guid_string: Seq<char>,
    pub virtual_device_guid_be: u64,
    pub virtual_device_guid_le: u64,
    pub physical_device_guid_string: Seq<char>,
    pub physical_device_guid_be: u64,
    pub physical_device_guid_le: u64,
    pub device_name: Seq<char>,
    pub parent_device_name: Seq<char>,
}

/// The answer for a device: its GUIDs as text, as stored (big endian) and with
/// their bytes reversed, and its names.
#[verifier::opaque]
pub open spec fn dto_of(d: VirtDeviceModel) -> DeviceDtoModel {
    DeviceDtoModel {
        virtual_device_guid_string: guid_text(d.virtual_guid),
        virtual_device_guid_be: d.virtual_guid,
        virtual_device_guid_le: swap_bytes64(d.virtual_guid),
        physical_device_guid_string: guid_text(d.physical_guid),
        physical_device_guid_be: d.physical_guid,
        physical_device_guid_le: swap_bytes64(d.physical_guid),
        device_name: d.virtual_device_name,
        parent_device_name: d.physical_device_name,
    }
}

/// The answer for a registered device gives back what the device was registered
/// with: its names, and its GUID strings where they are written in the form
/// `guid_u64_to_string` writes (lower-case hex digits in groups of four).
pub proof fn law_dto_gives_back_input(i: DeviceInputModel)
    ensures
        dto_of(device_of_input(i)).device_name == i.device_name,
        dto_of(device_of_input(i)).parent_device_name == i.parent_device_name,
        is_guid_text(i.virtual_device_guid_string) ==> dto_of(
            device_of_input(i),
        ).virtual_device_guid_string == i.virtual_device_guid_string,
        is_guid_text(i.physical_device_guid_string) ==> dto_of(
            device_of_input(i),
        ).physical_device_guid_string == i.physical_device_guid_string,
{
    reveal(dto_of);
    reveal(device_of_input);
    if is_guid_text(i.virtual_device_guid_string) {
        law_guid_text_written_back(i.virtual_device_guid_string);
    }
    if is_guid_text(i.physical_device_guid_string) {
        law_guid_text_written_back(i.physical_device_guid_string);
    }
}

/// The output for a virtualized device.
#[derive(Debug)]
pub struct VirtualizedDeviceDTO {
    virtual_device_guid_string: String,
    virtual_device_guid_be: u64,
    virtual_device_guid_le: u64,
    physical_device_guid_string: String,
    physical_device_guid_be: u64,
    physical_device_guid_le: u64,
    /// device name, e.g. ovey0
    device_name: String,
    /// parent device name, e.g. rxe0 or mlx0
    parent_device_name: String,
}

impl View for VirtualizedDeviceDTO {
    type V = DeviceDtoModel;

    closed spec fn view(&self) -> DeviceDtoModel {
        DeviceDtoModel {
            virtual_device_guid_string: self.virtual_device_guid_string@,
            virtual_device_guid_be: self.virtual_device_guid_be,
            virtual_device_guid_le: self.virtual_device_guid_le,
            physical_device_guid_string: self.physical_device_guid_string@,
            physical_device_guid_be: self.physical_device_guid_be,
            physical_device_guid_le: self.physical_device_guid_le,
            device_name: self.device_name@,
            parent_device_name: self.parent_device_name@,
        }
    }
}

impl VirtualizedDeviceDTO {
    /// The answer for a registered device.
    pub fn new(entity: &VirtualizedDevice) -> (r: Self)
        ensures
            r@ == dto_of(entity@),
    {
        reveal(dto_of);
        let virtual_device_guid_string = guid_be_to_string(entity.virtual_guid());
        let virtual_device_guid_be = entity.virtual_guid();
        let virtual_device_guid_le = Endianness::change(entity.virtual_guid());
        let physical_device_guid_string = guid_be_to_string(entity.physical_guid());
        let physical_device_guid_be = entity.physical_guid();
        let physical_device_guid_le = Endianness::change(entity.physical_guid());
        let device_name = entity.virtual_device_name().clone();
        let parent_device_name = entity.physical_device_name().clone();
        VirtualizedDeviceDTO {
            virtual_device_guid_string,
            virtual_device_guid_be,
            virtual_device_guid_le,
            physical_device_guid_string,
            physical_device_guid_be,
            physical_device_guid_le,
            device_name,
            parent_device_name,
        }
    }

    /// A DTO with the given fields (as received from a coordinator).
    pub fn from_parts(
        virtual_device_guid_string: String,
        virtual_device_guid_be: u64,
        virtual_device_guid_le: u64,
        physical_device_guid_string: String,
        physical_device_guid_be: u64,
        physical_device_guid_le: u64,
        device_name: String,
        parent_device_name: String,
    ) -> (r: Self)
        ensures
            r@ == (DeviceDtoModel {
                virtual_device_guid_string: virtual_device_guid_string@,
                virtual_device_guid_be,
                virtual_device_guid_le,
                physical_device_guid_string: physical_device_guid_string@,
                physical_device_guid_be,
                physical_device_guid_le,
                device_name: device_name@,
                parent_device_name: parent_device_name@,
            }),
    {
        VirtualizedDeviceDTO {
            virtual_device_guid_string,
            virtual_device_guid_be,
            virtual_device_guid_le,
            physical_device_guid_string,
            physical_device_guid_be,
            physical_device_guid_le,
            device_name,
            parent_device_name,
        }
    }

    pub fn virtual_device_guid_string(&self) -> (r: &str)
        ensures
            r@ == self@.virtual_device_guid_string,
    {
        self.virtual_device_guid_string.as_str()
    }

    pub fn virtual_device_guid_be(&self) -> (r: u64)
        ensures
            r == self@.virtual_device_guid_be,
    {
        self.virtual_device_guid_be
    }

    pub fn virtual_device_guid_le(&self) -> (r: u64)
        ensures
            r == self@.virtual_device_guid_le,
    {
        self.virtual_device_guid_le
    }

    pub fn physical_device_guid_string(&self) -> (r: &str)
        ensures
            r@ == self@.physical_device_guid_string,
    {
        self.physical_device_guid_string.as_str()
    }

    pub fn physical_device_guid_be(&self) -> (r: u64)
        ensures
            r == self@.physical_device_guid_be,
    {
        self.physical_device_guid_be
    }

    pub fn physical_device_guid_le(&self) -> (r: u64)
        ensures
            r == self@.physical_device_guid_le,
    {
        self.physical_device_guid_le
    }

    pub fn device_name(&self) -> (r: &str)
        ensures
            r@ == self@.device_name,
    {
        self.device_name.as_str()
    }

    pub fn parent_device_name(&self) -> (r: &str)
        ensures
            r@ == self@.parent_device_name,
    {
        self.parent_device_name.as_str()
    }
}

/// The coordinator's configuration: for each network it manages, the virtual
/// GUIDs (as text) of the devices it allows there.
pub struct InitDataConfiguration {
    networks: HashMap<u128, Vec<String>>,
}

/// The texts of a list of strings.
pub open spec fn strings_view(v: Vec<String>) -> Seq<Seq<char>> {
    v@.map_values(|s: String| s@)
}

impl View for InitDataConfiguration {
    type V = Map<u128, Seq<Seq<char>>>;

    closed spec fn view(&self) -> Map<u128, Seq<Seq<char>>> {
        self.networks@.map_values(|v: Vec<String>| strings_view(v))
    }
}

impl InitDataConfiguration {
    /// A configuration with the given networks.
    pub fn new(networks: HashMap<u128, Vec<String>>) -> (r: Self)
        ensures
            r@ == networks@.map_values(|v: Vec<String>| strings_view(v)),
    {
        InitDataConfiguration { networks }
    }

    /// The networks and their allowed devices.
    pub fn networks(&self) -> (r: &HashMap<u128, Vec<String>>)
        ensures
            r@.map_values(|v: Vec<String>| strings_view(v)) == self@,
    {
        &self.networks
    }

    /// The allowed devices of `network`, if the network is managed here.
    pub fn devices_of(&self, network: u128) -> (r: Option<&Vec<String>>)
        ensures
            match r {
                Some(v) => self@.contains_key(network) && strings_view(*v) == self@[network],
                None => !self@.contains_key(network),
            },
    {
        broadcast use vstd::std_specs::hash::group_hash_axioms;

        let r = self.networks.get(&network);
        proof {
            if self.networks@.contains_key(network) {
                assert(self@.contains_key(network));
            }
        }
        r
    }
}

} // verus!
