//! Program descriptors: the static description of one candidate update program.

use vstd::prelude::*;

verus! {

/// Mathematical model of a [`ProgramDescriptor`].
///
/// Two descriptors denote the same selection target exactly when their models
/// are equal, that is when all four fields agree.
pub struct DescriptorView {
    pub display_name: Seq<char>,
    pub executable_name: Seq<char>,
    pub update_args: Seq<Seq<char>>,
    pub requires_elevation: bool,
}

/// One candidate update program of a family.
#[derive(Debug)]
pub struct ProgramDescriptor {
    /// Human-readable label, such as `Pacman`.
    pub display_name: String,
    /// Name of the binary to look up on the search path, such as `pacman`.
    pub executable_name: String,
    /// Arguments of the one update invocation, in order.
    pub update_args: Vec<String>,
    /// Whether the invocation has to run with elevated privileges.
    pub requires_elevation: bool,
}

impl View for ProgramDescriptor {
    type V = DescriptorView;

    open spec fn view(&self) -> DescriptorView {
        DescriptorView {
            display_name: self.display_name@,
            executable_name: self.executable_name@,
            update_args: self.update_args.deep_view(),
            requires_elevation: self.requires_elevation,
        }
    }
}

impl DeepView for ProgramDescriptor {
    type V = DescriptorView;

    open spec fn deep_view(&self) -> DescriptorView {
        self@
    }
}

/// The model of the descriptor with the given parts.
pub open spec fn described(
    display_name: &str,
    executable_name: &str,
    update_args: Seq<Seq<char>>,
    requires_elevation: bool,
) -> DescriptorView {
    DescriptorView {
        display_name: display_name@,
        executable_name: executable_name@,
        update_args,
        requires_elevation,
    }
}

/// A list of one argument.
pub fn one_argument(only: &str) -> (args: Vec<String>)
    ensures
        args.deep_view() == seq![only@],
{
    let mut args: Vec<String> = Vec::new();
    args.push(String::from_str(only));
    assert(args.deep_view() =~= seq![only@]);
    args
}

/// A list of two arguments.
pub fn two_arguments(first: &str, second: &str) -> (args: Vec<String>)
    ensures
        args.deep_view() == seq![first@, second@],
{
    let mut args: Vec<String> = Vec::new();
    args.push(String::from_str(first));
    args.push(String::from_str(second));
    assert(args.deep_view() =~= seq![first@, second@]);
    args
}

/// Copies a list of strings.
pub fn clone_strings(items: &Vec<String>) -> (copy: Vec<String>)
    ensures
        copy.deep_view() == items.deep_view(),
{
    let mut copy: Vec<String> = Vec::new();
    let mut i: usize = 0;
    while i < items.len()
        invariant
            i <= items.len(),
            copy.len() == i,
            forall|j: int| 0 <= j < i ==> copy[j]@ == items[j]@,
        decreases items.len() - i,
    {
        copy.push(items[i].clone());
        i += 1;
    }
    assert(copy.deep_view() =~= items.deep_view());
    copy
}

/// Compares two lists of strings element by element.
pub fn same_strings(left: &Vec<String>, right: &Vec<String>) -> (same: bool)
    ensures
        same == (left.deep_view() == right.deep_view()),
{
    if left.len() != right.len() {
        assert(left.deep_view().len() != right.deep_view().len());
        return false;
    }
    let mut i: usize = 0;
    while i < left.len()
        invariant
            i <= left.len(),
            left.len() == right.len(),
            forall|j: int| 0 <= j < i ==> left[j]@ == right[j]@,
        decreases left.len() - i,
    {
        if left[i] != right[i] {
            assert(left.deep_view()[i as int] != right.deep_view()[i as int]);
            return false;
        }
        i += 1;
    }
    assert(left.deep_view() =~= right.deep_view());
    true
}

impl ProgramDescriptor {
    /// Builds a descriptor from its four parts.
    pub fn new(
        display_name: &str,
        executable_name: &str,
        update_args: Vec<String>,
        requires_elevation: bool,
    ) -> (descriptor: ProgramDescriptor)
        ensures
            descriptor@ == described(
                display_name,
                executable_name,
                update_args.deep_view(),
                requires_elevation,
            ),
    {
        ProgramDescriptor {
            display_name: String::from_str(display_name),
            executable_name: String::from_str(executable_name),
            update_args,
            requires_elevation,
        }
    }

    /// Whether `self` and `other` are the same selection target.
    pub fn same_as(&self, other: &ProgramDescriptor) -> (same: bool)
        ensures
            same == (self@ == other@),
    {
        self.display_name == other.display_name
            && self.executable_name == other.executable_name
            && self.requires_elevation == other.requires_elevation
            && same_strings(&self.update_args, &other.update_args)
    }
}

impl Clone for ProgramDescriptor {
    fn clone(&self) -> (copy: ProgramDescriptor)
        ensures
            copy@ == self@,
    {
        ProgramDescriptor {
            display_name: self.display_name.clone(),
            executable_name: self.executable_name.clone(),
            update_args: clone_strings(&self.update_args),
            requires_elevation: self.requires_elevation,
        }
    }
}

impl PartialEq for ProgramDescriptor {
    fn eq(&self, other: &ProgramDescriptor) -> (same: bool) {
        self.same_as(other)
    }
}

impl vstd::std_specs::cmp::PartialEqSpecImpl for ProgramDescriptor {
    open spec fn obeys_eq_spec() -> bool {
        true
    }

    open spec fn eq_spec(&self, other: &ProgramDescriptor) -> bool {
        self@ == other@
    }
}

} // verus!
