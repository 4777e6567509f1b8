//! How the store names itself.

use vstd::prelude::*;

verus! {

/// The text of `Opendal(<scheme>, bucket=<name>, root=<root>)`.
pub open spec fn label_text(scheme: Seq<char>, name: Seq<char>, root: Seq<char>) -> Seq<char> {
    "Opendal("@ + scheme + ", bucket="@ + name + ", root="@ + root + ")"@
}

/// The text the store displays itself as: the backend's scheme, bucket
/// name and root.
pub fn display_label(scheme: &str, name: &str, root: &str) -> (label: String)
    ensures
        label@ == label_text(scheme@, name@, root@),
{
    let mut label = String::from_str("Opendal(");
    label.append(scheme);
    label.append(", bucket=");
    label.append(name);
    label.append(", root=");
    label.append(root);
    label.append(")");
    label
}

} // verus!
