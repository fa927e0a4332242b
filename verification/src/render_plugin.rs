//! The icon catalog: how the files of the icon directory become the
//! identifiers that condition codes are matched against.

use vstd::prelude::*;
use vstd::string::*;

verus! {

/// The identifier of one icon of the catalog.
#[derive(Clone, Debug, PartialEq, Eq)]
pub struct ImageName {
    pub name: String,
}

impl View for ImageName {
    type V = Seq<char>;

    open spec fn view(&self) -> Seq<char> {
        self.name@
    }
}

/// The identifiers of a catalog, in catalog order.
pub open spec fn identifiers(catalog: Seq<ImageName>) -> Seq<Seq<char>> {
    catalog.map_values(|entry: ImageName| entry@)
}

/// `k` is where the extension of a file called `file_name` begins: at the
/// name's last dot, provided that dot is not the name's first character.
pub open spec fn is_extension_dot(file_name: Seq<char>, k: int) -> bool {
    &&& 0 < k < file_name.len()
    &&& file_name[k] == '.'
    &&& forall|i: int| k < i < file_name.len() ==> file_name[i] != '.'
}

/// Whether a file called `file_name` has an extension. A name without a dot
/// has none, and neither has a name whose only dot is its first character.
pub open spec fn has_extension(file_name: Seq<char>) -> bool {
    exists|k: int| is_extension_dot(file_name, k)
}

/// The identifier of the icon in a file called `file_name`: the name without
/// its extension, that is without its last dot and what follows it. A name
/// that has no extension is its own identifier.
pub open spec fn stem(file_name: Seq<char>) -> Seq<char> {
    if has_extension(file_name) {
        file_name.take(choose|k: int| is_extension_dot(file_name, k))
    } else {
        file_name
    }
}

/// Where the library of the rendering side finds the icon in a file called
/// `file_name`.
pub open spec fn asset_path_of(file_name: Seq<char>) -> Seq<char> {
    seq!['p', 'n', 'g', '/'] + file_name
}

/// A name has one place at most where its extension begins.
pub proof fn lemma_extension_dot_unique(file_name: Seq<char>, k1: int, k2: int)
    requires
        is_extension_dot(file_name, k1),
        is_extension_dot(file_name, k2),
    ensures
        k1 == k2,
{
}

/// The identifier of a name with an extension is what stands before the dot
/// at which the extension begins; dots before that one belong to it.
pub proof fn lemma_stem_with_extension(file_name: Seq<char>, k: int)
    requires
        is_extension_dot(file_name, k),
    ensures
        has_extension(file_name),
        stem(file_name) == file_name.take(k),
{
    let chosen = choose|j: int| is_extension_dot(file_name, j);
    lemma_extension_dot_unique(file_name, chosen, k);
}

/// A name with no dot after its first character has no extension and is its
/// own identifier, whether or not it starts with a dot.
pub proof fn lemma_stem_without_extension(file_name: Seq<char>)
    requires
        forall|i: int| 0 < i < file_name.len() ==> file_name[i] != '.',
    ensures
        !has_extension(file_name),
        stem(file_name) == file_name,
{
}

/// Builds the icon catalog from the names of the icon files.
pub struct RenderPlugin;

impl RenderPlugin {
    /// The directory, below the program's working directory, whose files are
    /// the icons.
    pub fn icon_directory() -> (dir: &'static str)
        ensures
            dir@ == "assets/png/"@,
    {
        "assets/png/"
    }

    /// The identifier of the icon in the file called `file_name`: the name
    /// without its extension.
    pub fn icon_name(file_name: &str) -> (name: ImageName)
        ensures
            name@ == stem(file_name@),
    {
        let n = file_name.unicode_len();
        let mut k: usize = n;
        while k > 0 && file_name.get_char(k - 1) != '.'
            invariant
                k <= n,
                n == file_name@.len(),
                forall|i: int| k <= i < n ==> file_name@[i] != '.',
            decreases k,
        {
            k -= 1;
        }
        if k >= 2 {
            proof {
                lemma_stem_with_extension(file_name@, k - 1);
            }
            ImageName { name: file_name.substring_char(0, k - 1).to_owned() }
        } else {
            proof {
                lemma_stem_without_extension(file_name@);
            }
            ImageName { name: file_name.to_owned() }
        }
    }

    /// The path by which the icon in the file called `file_name` is loaded.
    pub fn asset_path(file_name: &str) -> (path: String)
        ensures
            path@ == asset_path_of(file_name@),
    {
        proof {
            reveal_strlit("png/");
        }
        let path = String::from_str("png/").concat(file_name);
        proof {
            assert("png/"@ == seq!['p', 'n', 'g', '/']);
        }
        path
    }

    /// The catalog of the icons in the files called `file_names`: one entry
    /// for each file, in the order given.
    pub fn catalog(file_names: &Vec<String>) -> (catalog: Vec<ImageName>)
        ensures
            catalog@.len() == file_names@.len(),
            forall|i: int| 0 <= i < file_names@.len() ==> catalog@[i]@ == stem(file_names@[i]@),
    {
        let mut catalog: Vec<ImageName> = Vec::new();
        let mut i: usize = 0;
        while i < file_names.len()
            invariant
                i <= file_names@.len(),
                catalog@.len() == i,
                forall|j: int| 0 <= j < i ==> catalog@[j]@ == stem(file_names@[j]@),
            decreases file_names@.len() - i,
        {
            catalog.push(Self::icon_name(file_names[i].as_str()));
            i += 1;
        }
        catalog
    }
}

} // verus!
