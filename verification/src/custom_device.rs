//! A network device to capture on, as the system names it.

use vstd::prelude::*;

verus! {

/// A network device: its name and, where the system gives one, a
/// description.
#[derive(Debug)]
pub struct CustomDevice {
    name: String,
    desc: Option<String>,
}

/// A device as a mathematical value.
pub struct DeviceView {
    pub name: Seq<char>,
    pub desc: Option<Seq<char>>,
}

/// Why a device could not be had.
#[derive(Clone, Copy, Debug, PartialEq, Eq, Hash, Structural)]
pub enum DeviceError {
    /// The system knows no device of that name.
    NoSuchDevice,
}

impl View for CustomDevice {
    type V = DeviceView;

    closed spec fn view(&self) -> DeviceView {
        DeviceView {
            name: self.name@,
            desc: match self.desc {
                Some(desc) => Some(desc@),
                None => None,
            },
        }
    }
}

impl Clone for CustomDevice {
    fn clone(&self) -> (copy: CustomDevice)
        ensures
            copy@ == self@,
    {
        CustomDevice {
            name: self.name.clone(),
            desc: match &self.desc {
                Some(desc) => Some(desc.clone()),
                None => None,
            },
        }
    }
}

/// The devices of a list as mathematical values.
pub open spec fn device_views(devices: Seq<CustomDevice>) -> Seq<DeviceView> {
    devices.map_values(|device: CustomDevice| device@)
}

/// Whether `index` is the place of the first device called `name`.
pub open spec fn first_named(devices: Seq<DeviceView>, name: Seq<char>, index: int) -> bool {
    &&& 0 <= index < devices.len()
    &&& devices[index].name == name
    &&& forall|earlier: int| 0 <= earlier < index ==> (#[trigger] devices[earlier]).name != name
}

/// Whether some device of the list is called `name`.
pub open spec fn has_named(devices: Seq<DeviceView>, name: Seq<char>) -> bool {
    exists|index: int| 0 <= index < devices.len() && (#[trigger] devices[index]).name == name
}

impl CustomDevice {
    /// A device with this name and description.
    pub fn new(name: String, desc: Option<String>) -> (device: CustomDevice)
        ensures
            device@.name == name@,
            device@.desc == match desc {
                Some(desc) => Some(desc@),
                None => None,
            },
    {
        CustomDevice { name, desc }
    }

    /// The name of the device.
    pub fn name(&self) -> (name: &String)
        ensures
            name@ == self@.name,
    {
        &self.name
    }

    /// The description of the device, if it has one.
    pub fn desc(&self) -> (desc: &Option<String>)
        ensures
            self@.desc == match *desc {
                Some(desc) => Some(desc@),
                None => None,
            },
    {
        &self.desc
    }

    /// Find the device called `name` among the devices known to the system:
    /// the first of that name, or `NoSuchDevice` if there is none.
    pub fn device_from_name(name: String, devices: &Vec<CustomDevice>) -> (found: Result<
        CustomDevice,
        DeviceError,
    >)
        ensures
            found is Ok <==> has_named(device_views(devices@), name@),
            found matches Ok(device) ==> exists|index: int|
                first_named(device_views(devices@), name@, index) && device@
                    == #[trigger] device_views(devices@)[index],
            found matches Err(error) ==> error == DeviceError::NoSuchDevice,
    {
        let ghost views = device_views(devices@);
        let mut index: usize = 0;
        while index < devices.len()
            invariant
                index <= devices.len(),
                views == device_views(devices@),
                forall|earlier: int|
                    0 <= earlier < index ==> (#[trigger] views[earlier]).name != name@,
            decreases devices.len() - index,
        {
            let device = &devices[index];
            assert(views[index as int] == device@);
            if device.name == name {
                assert(first_named(views, name@, index as int));
                return Ok(device.clone());
            }
            index += 1;
        }
        Err(DeviceError::NoSuchDevice)
    }
}

} // verus!
