//! Capture device resolution: mapping a remembered device name onto the
//! list of devices the host enumerates right now.
//!
//! Enumeration itself is hardware work and happens outside; this module
//! receives the enumerated names and the index of the system default,
//! and decides which device a session should open.  A selected name that
//! matches nothing degrades to the default instead of failing: a device
//! that vanished since it was chosen must not break recording.

use vstd::prelude::*;

verus! {

/// Why no device could be resolved.
#[derive(Clone, Copy, PartialEq, Eq, Structural, Debug)]
pub enum DeviceError {
    /// The host enumerated no capture devices at all.
    NoDevicesFound,
    /// No device was selected and the host names no default.
    NoDefaultDevice,
}

/// One enumerated capture device: its position in the enumeration and
/// its name.
#[derive(Clone, Debug)]
pub struct DeviceDescriptor {
    pub index: usize,
    pub name: String,
}

/// Whether some enumerated name equals the selected one.
pub open spec fn some_name_matches(names: Seq<Seq<char>>, sel: Seq<char>) -> bool {
    exists|i: int| 0 <= i < names.len() && names[i] == sel
}

/// The views of an enumerated name list.
pub open spec fn name_views(names: Seq<String>) -> Seq<Seq<char>> {
    names.map_values(|n: String| n@)
}

/// Pair each enumerated capture device name with its position,
/// refusing an empty enumeration.
pub fn list_input_devices(names: Vec<String>) -> (r: Result<Vec<DeviceDescriptor>, DeviceError>)
    ensures
        names@.len() == 0 <==> r == Err::<Vec<DeviceDescriptor>, DeviceError>(
            DeviceError::NoDevicesFound,
        ),
        r matches Ok(ds) ==> ds@.len() == names@.len() && forall|i: int|
            0 <= i < ds@.len() ==> ((#[trigger] ds@[i]).index == i && ds@[i].name == names@[i]),
{
    if names.len() == 0 {
        return Err(DeviceError::NoDevicesFound);
    }
    let mut descriptors: Vec<DeviceDescriptor> = Vec::new();
    let mut i: usize = 0;
    while i < names.len()
        invariant
            i <= names@.len(),
            descriptors@.len() == i,
            forall|j: int|
                0 <= j < i ==> ((#[trigger] descriptors@[j]).index == j && descriptors@[j].name
                    == names@[j]),
        decreases names@.len() - i,
    {
        let ghost before = descriptors@;
        let name = names[i].clone();
        descriptors.push(DeviceDescriptor { index: i, name });
        proof {
            assert forall|j: int|
                0 <= j < i + 1 implies (#[trigger] descriptors@[j]).index == j
                && descriptors@[j].name == names@[j] by {
                if j < i {
                    assert(descriptors@[j] == before[j]);
                }
            }
        }
        i = i + 1;
    }
    Ok(descriptors)
}

/// Resolve a selected device name against the enumerated names.  With
/// no selection the default is used; a selection that matches a name
/// resolves to the first match; a selection that matches none falls
/// back to the default rather than failing.  Only a missing default is
/// an error.
pub fn resolve_device(names: &Vec<String>, default_index: Option<usize>, selected: &Option<
    String,
>) -> (r: Result<usize, DeviceError>)
    requires
        default_index matches Some(d) ==> d < names@.len(),
    ensures
        r matches Ok(i) ==> i < names@.len(),
        selected matches Some(sel) ==> ({
            &&& some_name_matches(name_views(names@), sel@) ==> (r matches Ok(i)
                && names@[i as int]@ == sel@ && forall|j: int| 0 <= j < i ==> names@[j]@ != sel@)
            &&& !some_name_matches(name_views(names@), sel@) ==> r == (match default_index {
                Some(d) => Ok::<usize, DeviceError>(d),
                None => Err::<usize, DeviceError>(DeviceError::NoDefaultDevice),
            })
        }),
        selected is None ==> r == (match default_index {
            Some(d) => Ok::<usize, DeviceError>(d),
            None => Err::<usize, DeviceError>(DeviceError::NoDefaultDevice),
        }),
{
    match selected {
        Some(sel) => {
            let mut i: usize = 0;
            while i < names.len()
                invariant
                    *selected == Some(*sel),
                    i <= names@.len(),
                    forall|j: int| 0 <= j < i ==> names@[j]@ != sel@,
                decreases names@.len() - i,
            {
                if names[i].eq(sel) {
                    proof {
                        assert(name_views(names@)[i as int] == sel@);
                        assert(some_name_matches(name_views(names@), sel@));
                    }
                    return Ok(i);
                }
                i = i + 1;
            }
            proof {
                assert(forall|j: int|
                    0 <= j < names@.len() ==> name_views(names@)[j] == names@[j]@);
            }
            match default_index {
                Some(d) => Ok(d),
                None => Err(DeviceError::NoDefaultDevice),
            }
        },
        None => {
            match default_index {
                Some(d) => Ok(d),
                None => Err(DeviceError::NoDefaultDevice),
            }
        },
    }
}

} // verus!
