use orogene::diagnostics::{
    delegated, Classification, Declaration, Diagnostic, DiagnosticCategory, FsPath, Net, NetMeta,
    ParseMeta, Parseable, PathMeta,
};

pub enum Useless {
    Garbage,
    PineapplePizza,
}

impl Net for Useless {
    fn net(&self) -> Option<NetMeta> {
        None
    }
}

impl FsPath for Useless {
    fn path(&self) -> Option<PathMeta> {
        None
    }
}

impl Parseable for Useless {
    fn parse_report(&self) -> Option<ParseMeta> {
        None
    }
}

impl Diagnostic for Useless {
    fn classification(&self) -> Classification {
        match self {
            Useless::Garbage => Declaration::new().advice("Garbage.").classify(),
            Useless::PineapplePizza => Declaration::new().advice("Don't.").classify(),
        }
    }

    fn message(&self) -> String {
        "Useless garbage.".to_string()
    }
}

pub struct Rainbow;

impl Net for Rainbow {
    fn net(&self) -> Option<NetMeta> {
        None
    }
}

impl FsPath for Rainbow {
    fn path(&self) -> Option<PathMeta> {
        None
    }
}

impl Parseable for Rainbow {
    fn parse_report(&self) -> Option<ParseMeta> {
        None
    }
}

impl Diagnostic for Rainbow {
    fn classification(&self) -> Classification {
        Declaration::new()
            .label("critical::rainbow")
            .advice("Rainbow.")
            .category(DiagnosticCategory::Misc)
            .classify()
    }

    fn message(&self) -> String {
        "Rainbow error.".to_string()
    }
}

pub enum Critical {
    Blue(i32),
    Red(i32),
    Orange(i32),
    Transparent(Rainbow),
}

impl Net for Critical {
    fn net(&self) -> Option<NetMeta> {
        None
    }
}

impl FsPath for Critical {
    fn path(&self) -> Option<PathMeta> {
        None
    }
}

impl Parseable for Critical {
    fn parse_report(&self) -> Option<ParseMeta> {
        None
    }
}

impl Diagnostic for Critical {
    fn classification(&self) -> Classification {
        match self {
            Critical::Blue(_) => Declaration::new()
                .category(DiagnosticCategory::Misc)
                .label("critical::blue")
                .advice("Blue.")
                .classify(),
            Critical::Red(_) => Declaration::new()
                .label("critical::red")
                .advice("Red.")
                .category(DiagnosticCategory::Misc)
                .classify(),
            Critical::Orange(_) => Declaration::new()
                .label("critical::orange")
                .advice("Orange.")
                .classify(),
            Critical::Transparent(r) => delegated(r),
        }
    }

    fn message(&self) -> String {
        match self {
            Critical::Transparent(r) => r.message(),
            _ => "Critical error.".to_string(),
        }
    }
}

pub struct UselessStruct {
    pub field: i32,
}

impl Net for UselessStruct {
    fn net(&self) -> Option<NetMeta> {
        None
    }
}

impl FsPath for UselessStruct {
    fn path(&self) -> Option<PathMeta> {
        None
    }
}

impl Parseable for UselessStruct {
    fn parse_report(&self) -> Option<ParseMeta> {
        None
    }
}

impl Diagnostic for UselessStruct {
    fn classification(&self) -> Classification {
        Declaration::new()
            .label("useless::struct")
            .advice("This struct is useless.")
            .classify()
    }

    fn message(&self) -> String {
        "Useless garbage.".to_string()
    }
}

#[test]
fn derive_it_works() {
    let gbg = Useless::Garbage;
    assert_eq!("Garbage.", gbg.advice().unwrap());

    let pp = Useless::PineapplePizza;
    assert_eq!("Don't.", pp.advice().unwrap());
}

#[test]
fn derive_enum_it_works() {
    let blue = Critical::Blue(2);
    assert_eq!("Blue.", blue.advice().unwrap());
    assert_eq!("critical::blue", blue.label());
    assert_eq!(DiagnosticCategory::Misc, blue.category());

    let red = Critical::Red(2);
    assert_eq!("Red.", red.advice().unwrap());
    assert_eq!("critical::red", red.label());
    assert_eq!(DiagnosticCategory::Misc, red.category());

    let orange = Critical::Orange(3);
    assert_eq!("Orange.", orange.advice().unwrap());
    assert_eq!("critical::orange", orange.label());
    assert_eq!(DiagnosticCategory::Misc, orange.category());

    let rainbow = Rainbow {};

    let transp = Critical::Transparent(rainbow);
    assert_eq!("Rainbow.", transp.advice().unwrap());
    assert_eq!("critical::rainbow", transp.label());
    assert_eq!(DiagnosticCategory::Misc, transp.category());
}

#[test]
fn derive_struct_it_works() {
    let usl = UselessStruct { field: 1 };
    assert_eq!(1, usl.field);
    assert_eq!("useless::struct", usl.label());
    assert_eq!("This struct is useless.", usl.advice().unwrap());
}

#[test]
fn undeclared_fields_take_their_defaults() {
    let c = Declaration::new().classify();
    assert_eq!(DiagnosticCategory::Misc, c.category);
    assert_eq!("crate::label", c.label);
    assert!(c.advice.is_none());
    let c = Declaration::new().category(DiagnosticCategory::Net).classify();
    assert_eq!(DiagnosticCategory::Net, c.category);
    assert_eq!("crate::label", c.label);
}
