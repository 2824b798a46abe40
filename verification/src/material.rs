//! Materials: their keys in the material cache, and how a material is made
//! from what an OBJ file's material library states.
//!
//! A texture that a material names no file for, or whose file is missing,
//! is replaced by a single pixel of the material's colour.

use crate::model::LoadError;
use crate::texture::Texture;
use crate::texture::TextureError;
use crate::texture::TextureFile;
use crate::texture::TextureView;
use crate::texture::file_texture;
use crate::texture::is_outcome;
use crate::texture::pixel_texture;
use vstd::prelude::*;

verus! {

/// The character of a decimal digit.
pub open spec fn digit(d: nat) -> char {
    seq!['0', '1', '2', '3', '4', '5', '6', '7', '8', '9'][d as int]
}

/// A number in decimal notation, without leading zeros.
pub open spec fn decimal(n: nat) -> Seq<char>
    decreases n,
{
    if n < 10 {
        seq![digit(n)]
    } else {
        decimal(n / 10).push(digit(n % 10))
    }
}

/// The key that a material is registered under: the path of the file that
/// states it, a hyphen, and its number in that file.
pub open spec fn key_text(path: Seq<char>, index: nat) -> Seq<char> {
    path + seq!['-'] + decimal(index)
}

/// A number in decimal notation has at least one character, and all of its
/// characters are digits.
pub proof fn lemma_decimal_is_digits(n: nat)
    ensures
        decimal(n).len() >= 1,
        n >= 10 ==> decimal(n).len() >= 2,
        forall|i: int| 0 <= i < decimal(n).len() ==> '0' <= #[trigger] decimal(n)[i] <= '9',
    decreases n,
{
    if n >= 10 {
        lemma_decimal_is_digits(n / 10);
    }
}

/// Different numbers have different decimal notations.
pub proof fn lemma_decimal_is_one_to_one(a: nat, b: nat)
    requires
        decimal(a) == decimal(b),
    ensures
        a == b,
    decreases a,
{
    lemma_decimal_is_digits(a);
    lemma_decimal_is_digits(b);
    if a < 10 {
        assert(decimal(a)[0] == digit(a));
        assert(decimal(b)[0] == digit(b));
    } else {
        let front_a = decimal(a / 10);
        let front_b = decimal(b / 10);
        assert(decimal(a).drop_last() =~= front_a);
        assert(decimal(b).drop_last() =~= front_b);
        assert(decimal(a).last() == digit(a % 10));
        assert(decimal(b).last() == digit(b % 10));
        lemma_decimal_is_one_to_one(a / 10, b / 10);
    }
}

/// A key tells which material it was made for: materials with the same
/// key come from the same file and have the same number in it.
pub proof fn lemma_key_names_one_material(
    path: Seq<char>,
    index: nat,
    other_path: Seq<char>,
    other_index: nat,
)
    requires
        key_text(path, index) == key_text(other_path, other_index),
    ensures
        path == other_path,
        index == other_index,
{
    let key = key_text(path, index);
    let other = key_text(other_path, other_index);
    lemma_decimal_is_digits(index);
    lemma_decimal_is_digits(other_index);
    assert(key.len() == path.len() + 1 + decimal(index).len());
    assert(other.len() == other_path.len() + 1 + decimal(other_index).len());
    if path.len() < other_path.len() {
        let at = other_path.len() as int;
        assert(other[at] == '-');
        assert(key[at] == decimal(index)[at - path.len() - 1]);
    } else if other_path.len() < path.len() {
        let at = path.len() as int;
        assert(key[at] == '-');
        assert(other[at] == decimal(other_index)[at - other_path.len() - 1]);
    } else {
        assert(path =~= key.subrange(0, path.len() as int));
        assert(other_path =~= other.subrange(0, path.len() as int));
        assert(decimal(index) =~= key.subrange(path.len() as int + 1, key.len() as int));
        assert(decimal(other_index) =~= other.subrange(path.len() as int + 1, key.len() as int));
        lemma_decimal_is_one_to_one(index, other_index);
    }
}

/// The text of one decimal digit.
fn digit_text(d: usize) -> (text: &'static str)
    requires
        d < 10,
    ensures
        text@ == seq![digit(d as nat)],
{
    proof {
        reveal_strlit("0");
        reveal_strlit("1");
        reveal_strlit("2");
        reveal_strlit("3");
        reveal_strlit("4");
        reveal_strlit("5");
        reveal_strlit("6");
        reveal_strlit("7");
        reveal_strlit("8");
        reveal_strlit("9");
    }
    let text = if d == 0 {
        "0"
    } else if d == 1 {
        "1"
    } else if d == 2 {
        "2"
    } else if d == 3 {
        "3"
    } else if d == 4 {
        "4"
    } else if d == 5 {
        "5"
    } else if d == 6 {
        "6"
    } else if d == 7 {
        "7"
    } else if d == 8 {
        "8"
    } else {
        "9"
    };
    assert(text@ =~= seq![digit(d as nat)]);
    text
}

/// Appends `n` in decimal notation to `text`.
fn push_decimal(text: &mut String, n: usize)
    ensures
        final(text)@ == old(text)@ + decimal(n as nat),
    decreases n,
{
    if n >= 10 {
        push_decimal(text, n / 10);
    }
    text.append(digit_text(n % 10));
    assert(text@ =~= old(text)@ + decimal(n as nat));
}

/// The key of a material: the path of its file, a hyphen and its number in
/// the file.
pub fn material_key(path: &str, index: usize) -> (key: String)
    ensures
        key@ == key_text(path@, index as nat),
{
    let mut key = String::from_str(path);
    key.append("-");
    proof {
        reveal_strlit("-");
        assert("-"@ =~= seq!['-']);
    }
    push_decimal(&mut key, index);
    assert(key@ =~= key_text(path@, index as nat));
    key
}

/// The three textures of a material.
#[derive(Clone, Copy, Debug, PartialEq, Eq)]
pub enum TextureSlot {
    Diffuse,
    Normal,
    Specular,
}

/// One material as an OBJ file's material library states it, with what
/// reading its texture files gave.
#[derive(Debug)]
pub struct ObjMaterial {
    pub name: String,
    /// Path of the diffuse map; empty where the material has none.
    pub diffuse_texture: String,
    pub diffuse_file: TextureFile,
    /// Diffuse colour: red, green, blue.
    pub diffuse: [u8; 3],
    /// Path of the normal map; empty where the material has none.
    pub normal_texture: String,
    pub normal_file: TextureFile,
    /// Path of the specular map; empty where the material has none.
    pub specular_texture: String,
    pub specular_file: TextureFile,
    /// Specular colour: red, green, blue.
    pub specular: [u8; 3],
}

/// A material: three textures and the shader program that reads them.
#[derive(Debug)]
pub struct Material {
    pub name: String,
    pub diffuse_texture: Texture,
    pub normal_texture: Texture,
    pub specular_texture: Texture,
    pub id: u32,
    /// Handle of the shader program in the scene's shader cache.
    pub shader: usize,
}

/// The value of a [`Material`].
pub struct MaterialView {
    pub name: Seq<char>,
    pub diffuse_texture: TextureView,
    pub normal_texture: TextureView,
    pub specular_texture: TextureView,
    pub id: u32,
    pub shader: usize,
}

impl View for Material {
    type V = MaterialView;

    open spec fn view(&self) -> MaterialView {
        MaterialView {
            name: self.name@,
            diffuse_texture: self.diffuse_texture@,
            normal_texture: self.normal_texture@,
            specular_texture: self.specular_texture@,
            id: self.id,
            shader: self.shader,
        }
    }
}

/// The texture for one slot of a material: that of its file or, where the
/// material names no file or the file is missing, one pixel of the fallback
/// colour.
pub open spec fn slot_texture(
    path: Seq<char>,
    file: TextureFile,
    is_normal_map: bool,
    fallback: Seq<u8>,
    fallback_label: Seq<char>,
) -> Result<TextureView, TextureError> {
    if path.len() == 0 || file is Missing {
        Ok(pixel_texture(fallback, Some(fallback_label), true))
    } else {
        file_texture(file, Some(path), is_normal_map)
    }
}

/// Makes the texture for one slot of a material.
fn load_slot(
    path: &str,
    file: &TextureFile,
    is_normal_map: bool,
    fallback: [u8; 4],
    fallback_label: &str,
) -> (r: Result<Texture, TextureError>)
    ensures
        is_outcome(r, slot_texture(path@, *file, is_normal_map, fallback@, fallback_label@)),
{
    let missing = match file {
        TextureFile::Missing => true,
        _ => false,
    };
    if path.unicode_len() == 0 || missing {
        let mut pixel: Vec<u8> = Vec::new();
        pixel.push(fallback[0]);
        pixel.push(fallback[1]);
        pixel.push(fallback[2]);
        pixel.push(fallback[3]);
        assert(pixel@.subrange(0, 4) =~= fallback@);
        Texture::one_pixel(pixel.as_slice(), Some(fallback_label), true)
    } else {
        Texture::load(path, file, is_normal_map)
    }
}

impl ObjMaterial {
    /// The diffuse texture: the diffuse map or the diffuse colour, opaque.
    pub open spec fn diffuse_outcome(&self) -> Result<TextureView, TextureError> {
        slot_texture(
            self.diffuse_texture@,
            self.diffuse_file,
            false,
            seq![self.diffuse[0], self.diffuse[1], self.diffuse[2], 0xffu8],
            "diffuse texture"@,
        )
    }

    /// The normal texture: the normal map or the normal that points straight
    /// out of the surface.
    pub open spec fn normal_outcome(&self) -> Result<TextureView, TextureError> {
        slot_texture(
            self.normal_texture@,
            self.normal_file,
            true,
            seq![0x80u8, 0x80u8, 0xffu8, 0u8],
            "default normal texture"@,
        )
    }

    /// The specular texture: the specular map or the specular colour,
    /// opaque.
    pub open spec fn specular_outcome(&self) -> Result<TextureView, TextureError> {
        slot_texture(
            self.specular_texture@,
            self.specular_file,
            false,
            seq![self.specular[0], self.specular[1], self.specular[2], 0xffu8],
            "specular texture"@,
        )
    }

    /// The material with number `index` and shader `shader` that this
    /// source gives, or the first thing in the way.
    pub open spec fn outcome(&self, index: usize, shader: usize) -> Result<MaterialView, LoadError> {
        match self.diffuse_outcome() {
            Err(error) => Err(
                LoadError::Texture { material: index, slot: TextureSlot::Diffuse, error },
            ),
            Ok(diffuse_texture) => match self.normal_outcome() {
                Err(error) => Err(
                    LoadError::Texture { material: index, slot: TextureSlot::Normal, error },
                ),
                Ok(normal_texture) => match self.specular_outcome() {
                    Err(error) => Err(
                        LoadError::Texture { material: index, slot: TextureSlot::Specular, error },
                    ),
                    Ok(specular_texture) => if index > u32::MAX {
                        Err(LoadError::TooManyMaterials { material: index })
                    } else {
                        Ok(
                            MaterialView {
                                name: self.name@,
                                diffuse_texture,
                                normal_texture,
                                specular_texture,
                                id: index as u32,
                                shader,
                            },
                        )
                    },
                },
            },
        }
    }

    /// Makes the material with number `index` and shader `shader`.
    ///
    /// A slot without a usable file gets one pixel: the material's diffuse or
    /// specular colour with full alpha, or the straight normal.
    pub fn build(&self, index: usize, shader: usize) -> (r: Result<Material, LoadError>)
        ensures
            match r {
                Ok(m) => self.outcome(index, shader) == Ok::<MaterialView, LoadError>(m@),
                Err(e) => self.outcome(index, shader) == Err::<MaterialView, LoadError>(e),
            },
    {
        let diffuse_texture = match load_slot(
            self.diffuse_texture.as_str(),
            &self.diffuse_file,
            false,
            [self.diffuse[0], self.diffuse[1], self.diffuse[2], 0xff],
            "diffuse texture",
        ) {
            Ok(t) => t,
            Err(error) => {
                return Err(
                    LoadError::Texture { material: index, slot: TextureSlot::Diffuse, error },
                );
            },
        };
        let normal_texture = match load_slot(
            self.normal_texture.as_str(),
            &self.normal_file,
            true,
            [0x80, 0x80, 0xff, 0],
            "default normal texture",
        ) {
            Ok(t) => t,
            Err(error) => {
                return Err(LoadError::Texture { material: index, slot: TextureSlot::Normal, error });
            },
        };
        let specular_texture = match load_slot(
            self.specular_texture.as_str(),
            &self.specular_file,
            false,
            [self.specular[0], self.specular[1], self.specular[2], 0xff],
            "specular texture",
        ) {
            Ok(t) => t,
            Err(error) => {
                return Err(
                    LoadError::Texture { material: index, slot: TextureSlot::Specular, error },
                );
            },
        };
        if index > 0xffff_ffff {
            return Err(LoadError::TooManyMaterials { material: index });
        }
        Ok(
            Material::new(
                self.name.as_str(),
                diffuse_texture,
                normal_texture,
                specular_texture,
                index as u32,
                shader,
            ),
        )
    }
}

impl Material {
    /// A material of the given textures, read by the shader program with
    /// handle `shader`.
    pub fn new(
        name: &str,
        diffuse_texture: Texture,
        normal_texture: Texture,
        specular_texture: Texture,
        id: u32,
        shader: usize,
    ) -> (material: Material)
        ensures
            material@ == (MaterialView {
                name: name@,
                diffuse_texture: diffuse_texture@,
                normal_texture: normal_texture@,
                specular_texture: specular_texture@,
                id,
                shader,
            }),
    {
        Material {
            name: String::from_str(name),
            diffuse_texture,
            normal_texture,
            specular_texture,
            id,
            shader,
        }
    }
}

} // verus!
