//! Finding the trackpad among the input devices, and saying what is wrong
//! when there is none to be found.

use vstd::prelude::*;

verus! {

/// Flag of `open(2)`: open for reading only.
pub const O_RDONLY: i32 = 0;

/// Flag of `open(2)`: open for writing only.
pub const O_WRONLY: i32 = 1;

/// Flag of `open(2)`: open for reading and writing.
pub const O_RDWR: i32 = 2;

/// The way into the device files: it decides how each is opened.
#[derive(Clone, Copy, Debug)]
pub struct Interface;

/// How a device file is to be opened.
#[derive(Clone, Copy, Debug, PartialEq, Eq, Structural)]
pub struct AccessMode {
    pub read: bool,
    pub write: bool,
}

/// The access that the flags of an `open` call ask for. A flag counts as
/// asked for when it shares a bit with `flags`; `O_RDONLY`, having no bit of
/// its own, never does.
pub open spec fn access_for(flags: i32) -> AccessMode {
    AccessMode {
        read: (flags & O_RDONLY != 0) || (flags & O_RDWR != 0),
        write: (flags & O_WRONLY != 0) || (flags & O_RDWR != 0),
    }
}

impl Interface {
    /// Reads the access mode off the flags that the input library hands
    /// over when it wants a device opened.
    pub fn open_restricted(&self, flags: i32) -> (mode: AccessMode)
        ensures
            mode == access_for(flags),
    {
        AccessMode {
            read: (flags & O_RDONLY != 0) || (flags & O_RDWR != 0),
            write: (flags & O_WRONLY != 0) || (flags & O_RDWR != 0),
        }
    }
}

/// What an input device can report.
#[derive(Clone, Copy, Debug, PartialEq, Eq, Structural)]
pub struct Capabilities {
    pub pointer: bool,
    pub gesture: bool,
}

impl Capabilities {
    /// Whether a device with these capabilities is a trackpad: it moves the
    /// pointer and it reports gestures. The virtual device of this program
    /// moves the pointer only, and so is never taken for one.
    pub open spec fn is_trackpad(self) -> bool {
        self.pointer && self.gesture
    }
}

/// The outcome of looking through the input devices.
#[derive(Clone, Copy, Debug, PartialEq, Eq, Structural)]
pub struct Search {
    /// The place of the first trackpad among the devices, if there is one.
    pub found: Option<usize>,
    /// How many devices were looked at, counted up to 255.
    pub examined: u8,
}

/// Whether `place` is where the first trackpad stands among `devices`.
pub open spec fn is_first_trackpad(devices: Seq<Capabilities>, place: int) -> bool {
    &&& 0 <= place < devices.len()
    &&& devices[place].is_trackpad()
    &&& forall|j: int| 0 <= j < place ==> !devices[j].is_trackpad()
}

/// The number of devices looked at, which is counted no further than 255.
pub open spec fn counted(devices: int) -> u8 {
    if devices > 255 {
        255u8
    } else {
        devices as u8
    }
}

/// Looks through the devices, in the order in which they were announced,
/// for the first that is a trackpad. The search ends there: the devices up
/// to and including the one found were looked at, or all of them if none
/// was found.
pub fn find_real_trackpad(devices: &Vec<Capabilities>) -> (search: Search)
    ensures
        (match search.found {
            Some(first) => is_first_trackpad(devices@, first as int) && search.examined
                == counted(first + 1),
            None => (forall|place: int|
                0 <= place < devices.len() ==> !devices[place].is_trackpad())
                && search.examined == counted(devices.len() as int),
        }),
{
    let mut dev_added_count: u8 = 0;
    let mut i: usize = 0;
    while i < devices.len()
        invariant
            i <= devices.len(),
            forall|j: int| 0 <= j < i ==> !devices[j].is_trackpad(),
            dev_added_count == if i > 255 {
                255
            } else {
                i as int
            },
        decreases devices.len() - i,
    {
        if dev_added_count < 255 {
            dev_added_count = dev_added_count + 1;
        }
        if devices[i].pointer && devices[i].gesture {
            return Search { found: Some(i), examined: dev_added_count };
        }
        i = i + 1;
    }
    Search { found: None, examined: dev_added_count }
}

/// What the user database says of the user who runs the program.
#[derive(Clone, Debug)]
pub enum UserRecord {
    /// The user is not in the database.
    Unknown,
    /// The user is known, their groups are not.
    WithoutGroups,
    /// The user is known and belongs to the groups of these names.
    InGroups(Vec<String>),
}

/// Why no trackpad could be found.
#[derive(Clone, Copy, Debug, PartialEq, Eq, Structural)]
pub enum SearchError {
    /// The user who started the program is no longer in the user database.
    UserGone,
    /// The user belongs to no group at all.
    NoGroups,
    /// The program may not read the input devices: most likely the user is
    /// not in the group `input`.
    NotInInputGroup,
    /// The program may read the input devices, and none of them is a
    /// trackpad.
    NotDiscoverable,
}

/// Whether one of `groups` is the group `input`.
pub open spec fn in_input_group(groups: Seq<String>) -> bool {
    exists|i: int| 0 <= i < groups.len() && groups[i]@ == "input"@
}

/// Why the search found no trackpad, as far as can be told.
///
/// The input library does not say why it shows no device, so the cause is
/// worked out here. When not a single device was seen, or when the user is
/// not in the group `input`, permission is what is missing. Otherwise the
/// devices could be read and there was no trackpad among them.
pub open spec fn diagnosis(devices_added: u8, user: UserRecord) -> SearchError {
    match user {
        UserRecord::Unknown => SearchError::UserGone,
        UserRecord::WithoutGroups => SearchError::NoGroups,
        UserRecord::InGroups(groups) => if devices_added == 0 || !in_input_group(groups@) {
            SearchError::NotInInputGroup
        } else {
            SearchError::NotDiscoverable
        },
    }
}

/// Works out why the search found no trackpad, from the number of devices
/// it looked at and from what is known of the user.
pub fn raise_correct_error(devices_added: u8, user: &UserRecord) -> (error: SearchError)
    ensures
        error == diagnosis(devices_added, *user),
{
    match user {
        UserRecord::Unknown => SearchError::UserGone,
        UserRecord::WithoutGroups => SearchError::NoGroups,
        UserRecord::InGroups(your_groups) => {
            let wanted = "input".to_owned();
            let mut found = false;
            let mut i: usize = 0;
            while i < your_groups.len()
                invariant
                    i <= your_groups.len(),
                    wanted@ == "input"@,
                    found == exists|j: int| 0 <= j < i && your_groups[j]@ == "input"@,
                decreases your_groups.len() - i,
            {
                if your_groups[i] == wanted {
                    found = true;
                }
                i = i + 1;
            }
            if devices_added == 0 || !found {
                SearchError::NotInInputGroup
            } else {
                SearchError::NotDiscoverable
            }
        },
    }
}

} // verus!
