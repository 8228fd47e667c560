//! The built-in catalog: for every category, the table of recommended
//! crates that the browser offers, as plain data.

use vstd::prelude::*;

use crate::backend::{Categories, CategoriesWithSubCategories, Crates, CratesView, Table,
    TableEntry, TableEntryView};
use crate::scraper::CratesData;

verus! {

/// A catalog parser that holds the raw catalog data it was built from and
/// hands out the built-in per-category tables.
#[derive(Debug)]
pub struct ContentParser {
    pub content: CratesData,
}

/// The crate names of each row of a table, in order.
pub open spec fn table_names(entries: Seq<TableEntryView>) -> Seq<Seq<Seq<char>>> {
    entries.map_values(|e: TableEntryView| e.crates.map_values(|c: CratesView| c.name))
}

/// The crate names the general table lists, row by row.
pub open spec fn general_crate_names() -> Seq<Seq<Seq<char>>> {
    seq![
        seq!["rand"@],
        seq!["time"@, "chrono"@],
        seq!["serde"@],
        seq!["regex"@, "fancy-regex"@],
        seq!["uuid"@],
        seq!["tempfile"@],
        seq!["flate2"@],
        seq!["indexmap"@],
        seq!["arrayvec"@, "smallvec"@, "tinyvec"@],
        seq!["reqwest"@, "ureq"@],
    ]
}

/// The crate names the math table lists, row by row.
pub open spec fn math_crate_names() -> Seq<Seq<Seq<char>>> {
    seq![
        seq!["num-traits"@],
        seq!["num-bigint"@, "rug"@],
        seq!["rust_decimal"@],
        seq!["ordered-float"@],
        seq!["nalgebra"@, "ndarray"@],
        seq!["polars"@, "datafusion"@],
    ]
}

/// The crate names the ffi table lists, row by row.
pub open spec fn ffi_crate_names() -> Seq<Seq<Seq<char>>> {
    seq![
        seq!["bindgen"@, "cbindgen"@],
        seq!["cxx"@],
        seq!["pyo3"@],
        seq!["napi"@, "neon"@],
        seq!["rutie"@],
        seq!["objc"@],
        seq!["jni"@],
        seq!["mlua"@],
        seq!["flutter_rust_bridge"@],
        seq!["rustler"@],
    ]
}

/// The crate names the cryptography table lists, row by row.
pub open spec fn cryptography_crate_names() -> Seq<Seq<Seq<char>>> {
    seq![
        seq!["argon2"@, "scrypt"@, "bcrypt"@],
        seq!["sha2"@, "sha1"@, "md-5"@],
        seq!["aes-gcm-siv"@, "aes-gcm"@, "chacha20poly1305"@],
        seq!["rsa"@],
        seq!["ed25519"@, "ecdsa"@, "dsa"@],
        seq!["der"@, "pem-rfc7468"@, "pkcs8"@, "x509-cert"@],
        seq!["rustls"@, "native-tls"@, "webpki"@, "ring"@],
        seq!["subtle"@, "zeroize"@],
    ]
}

/// The crate names the clis table lists, row by row.
pub open spec fn clis_crate_names() -> Seq<Seq<Seq<char>>> {
    seq![
        seq!["clap"@, "lexopt"@, "pico-args"@],
        seq!["globset"@, "walkdir"@, "ignore"@, "notify"@],
        seq!["termcolor"@, "indicatif"@, "ratatui"@, "crossterm"@, "inquire"@],
    ]
}

/// The crate names the common table lists, row by row.
pub open spec fn common_crate_names() -> Seq<Seq<Seq<char>>> {
    seq![
        seq!["anyhow"@, "color-eyre"@, "thiserror"@],
        seq!["tracing"@, "log"@, "tracing"@, "slog"@],
        seq!["once_cell"@, "lazy_static"@, "itertools"@, "syn"@, "quote"@, "paste"@, "bytemuck"@, "zerocopy"@, "bitflags"@],
        seq!["memmap2"@, "libc"@, "windows"@, "winapi"@, "nix"@],
    ]
}

/// The crate names the graphics table lists, row by row.
pub open spec fn graphics_crate_names() -> Seq<Seq<Seq<char>>> {
    seq![
        seq!["gtk4"@, "relm4"@, "tauri"@, "dioxus"@, "egui"@, "iced"@, "floem"@, "vizia"@, "winit"@, "tao"@, "glazier"@, "baseview"@, "femtovg"@, "skia-safe"@, "vello"@, "vger"@, "webrender"@, "taffy"@, "morphorm"@, "cosmic-text"@, "parley"@, "accesskit"@, "arboard"@, "rfd"@],
        seq!["bevy"@, "fyrox"@, "ggez"@, "macroquad"@, "glam"@],
    ]
}

/// The crate names the databases table lists, row by row.
pub open spec fn databases_crate_names() -> Seq<Seq<Seq<char>>> {
    seq![
        seq!["sqlx"@, "diesel"@, "sea-orm"@, "tokio-postgres"@, "mysql_async"@, "rusqlite"@, "tiberius"@, "diesel-oci"@, "oracle"@],
        seq!["redis"@, "mongodb"@, "elasticsearch"@, "rocksdb"@, "cassandra-protocol"@, "cdrs-tokio"@],
        seq!["deadpool"@],
    ]
}

/// The crate names the networking table lists, row by row.
pub open spec fn networking_crate_names() -> Seq<Seq<Seq<char>>> {
    seq![
        seq!["tokio"@, "futures-executor"@, "futures"@, "async-trait"@, "glommio"@],
        seq!["http"@, "hyper"@, "reqwest"@, "ureq"@, "axum"@, "actix-web"@, "async-graphql"@],
        seq!["tungstenite"@, "tokio-tungstenite"@, "async-tungstenite"@],
        seq!["tonic"@],
    ]
}

/// The crate names the concurrency table lists, row by row.
pub open spec fn concurrency_crate_names() -> Seq<Seq<Seq<char>>> {
    seq![
        seq!["parking_lot"@, "arc-swap"@, "dashmap"@, "flurry"@, "crossbeam-channel"@, "flume"@, "tokio"@, "postage"@, "rayon"@],
    ]
}

fn general_table() -> (t: Table)
    ensures
        table_names(t@) == general_crate_names(),
        t@.len() == 10,
        t@[0].crates.len() > 0,
        t@[0].crates[0].name == "rand"@,
        forall|i: int| 0 <= i < t@.len() ==> (#[trigger] t@[i].crates.len()) > 0,
{
    let t = Table {
        entries: vec![
            TableEntry {
                use_case: String::new(),
                crates: vec![
                    Crates {
                        name: "rand".to_owned(),
                        description: "De facto standard random number generation library split out from the standard library,".to_owned(),
                        features: Option::None
                    },
                ],
            },
            TableEntry {
                use_case: String::new(),
                crates: vec![
                    Crates {
                        name: "time".to_owned(),
                        description: "A smaller, simpler library. Preferrable if covers your needs, but it's quite limited in what it provides.,".to_owned(),
                        features: Option::Some(vec!["macros ".to_owned(), "formatting ".to_owned(), "parsing ".to_owned()])
                    },
                    Crates {
                        name: "chrono".to_owned(),
                        description: "The most comprehensive and full-featured datetime library, but more complex because of it.,".to_owned(),
                        features: Option::Some(vec!["serde".to_owned()]),
                    },
                ],
            },
            TableEntry {
                use_case: String::new(),
                crates: vec![
                    Crates {
                        name: "serde".to_owned(),
                        description: "De facto standard serialization library. Use in conjunction with sub-crates like serde_json for the specific format that you are using.,".to_owned(),
                        features: Option::Some(vec!["derive".to_owned()])
                    },
                ],
            },
            TableEntry {
                use_case: String::new(),
                crates: vec![
                    Crates {
                        name: "regex".to_owned(),
                        description: "De facto standard regex library. Very fast, but does not support fancier features such as backtracking.,".to_owned(),
                        features: Option::None
                    },
                    Crates {
                        name: "fancy-regex".to_owned(),
                        description: "Use if need features such as backtracking which regex doesn't support,".to_owned(),
                        features: Option::None
                    },
                ],
            },
            TableEntry {
                use_case: String::new(),
                crates: vec![
                    Crates {
                        name: "uuid".to_owned(),
                        description: "Implements generating and parsing UUIDs and a number of utility functions,".to_owned(),
                        features: Option::Some(vec!["v4 ".to_owned(), "serde ".to_owned()])
                    },
                ],
            },
            TableEntry {
                use_case: String::new(),
                crates: vec![
                    Crates {
                        name: "tempfile".to_owned(),
                        description: "Supports both temporary files and temporary directories,".to_owned(),
                        features: Option::None
                    },
                ],
            },
            TableEntry {
                use_case: String::new(),
                crates: vec![
                    Crates {
                        name: "flate2".to_owned(),
                        description: "Uses a pure-Rust implementation by default. Use feature flags to opt in to system zlib.,".to_owned(),
                        features: Option::None
                    },
                ],
            },
            TableEntry {
                use_case: String::new(),
                crates: vec![
                    Crates {
                        name: "indexmap".to_owned(),
                        description: "A HashMap that seperately keeps track of insertion order and allows you to efficiently iterate over its elements in that order,".to_owned(),
                        features: Option::None
                    },
                ],
            },
            TableEntry {
                use_case: String::new(),
                crates: vec![
                    Crates {
                        name: "arrayvec".to_owned(),
                        description: "Arrays that are ONLY stack-allocated with fixed capacity,".to_owned(),
                        features: Option::Some(vec!["serde".to_owned()])
                    },
                    Crates {
                        name: "smallvec".to_owned(),
                        description: "Arrays that are stack-allocated with fallback to the heap if the fixed stack capacity is exceeded,".to_owned(),
                        features: Option::None,
                    },
                    Crates {
                        name: "tinyvec".to_owned(),
                        description: "Stack allocated arrays in 100% safe Rust code but requires items to implement the Default trait.,".to_owned(),
                        features: Option::None
                    },
                ],
            },
            TableEntry {
                use_case: String::new(),
                crates: vec![
                    Crates {
                        name: "reqwest".to_owned(),
                        description: "Full-fat HTTP client. Can be used in both synchronous and asynchronous code. Requires tokio runtime.,".to_owned(),
                        features: Option::Some(vec!["json".to_owned()])
                    },
                    Crates {
                        name: "ureq".to_owned(),
                        description: "Minimal synchronous HTTP client focussed on simplicity and minimising dependencies.,".to_owned(),
                        features: Option::Some(vec!["json ".to_owned(), "charset ".to_owned()])
                    },
                ],
            },
        ],
    };
    proof {
        assert(t@.len() == 10);
        assert(t@[0].crates[0].name == "rand"@);
        assert(table_names(t@)[0] =~= general_crate_names()[0]);
        assert(table_names(t@)[1] =~= general_crate_names()[1]);
        assert(table_names(t@)[2] =~= general_crate_names()[2]);
        assert(table_names(t@)[3] =~= general_crate_names()[3]);
        assert(table_names(t@)[4] =~= general_crate_names()[4]);
        assert(table_names(t@)[5] =~= general_crate_names()[5]);
        assert(table_names(t@)[6] =~= general_crate_names()[6]);
        assert(table_names(t@)[7] =~= general_crate_names()[7]);
        assert(table_names(t@)[8] =~= general_crate_names()[8]);
        assert(table_names(t@)[9] =~= general_crate_names()[9]);
        assert(table_names(t@) =~= general_crate_names());
        assert forall|i: int| 0 <= i < t@.len() implies (#[trigger] t@[i].crates.len()) > 0 by {
            assert(t@[i].crates == t.entries@[i]@.crates);
        }
    }
    t
}

fn math_table() -> (t: Table)
    ensures
        table_names(t@) == math_crate_names(),
        t@.len() == 6,
        t@[0].crates.len() > 0,
        t@[0].crates[0].name == "num-traits"@,
        forall|i: int| 0 <= i < t@.len() ==> (#[trigger] t@[i].crates.len()) > 0,
{
    let t = Table {
        entries: vec![
            TableEntry {
                use_case: String::new(),
                crates: vec![
                    Crates {
                        name: "num-traits".to_owned(),
                        description: "Traits like Number, Add, etc that allow you write functions that are generic over the specific numeric type,".to_owned(),
                        features: Option::None
                    },
                ],
            },
            TableEntry {
                use_case: String::new(),
                crates: vec![
                    Crates {
                        name: "num-bigint".to_owned(),
                        description: "It's not the fastest, but it's part of the trusted num library.,".to_owned(),
                        features: Option::Some(vec!["rand".to_owned()])
                    },
                    Crates {
                        name: "rug".to_owned(),
                        description: "LGPL licensed. Wrapper for GMP. Much faster than num-bigint.,".to_owned(),
                        features: Option::None
                    },
                ],
            },
            TableEntry {
                use_case: String::new(),
                crates: vec![
                    Crates {
                        name: "rust_decimal".to_owned(),
                        description: "The binary representation consists of a 96 bit integer number, a scaling factor used to specify the decimal fraction and a 1 bit sign.,".to_owned(),
                        features: Option::None
                    },
                ],
            },
            TableEntry {
                use_case: String::new(),
                crates: vec![
                    Crates {
                        name: "ordered-float".to_owned(),
                        description: "Float types that don't allow NaN and are therefore orderable. You can also use the,total_cmp,method from the standard library like,.sort_by(|a, b| a.total_cmp(&b)),.,".to_owned(),
                        features: Option::None
                    },
                ],
            },
            TableEntry {
                use_case: String::new(),
                crates: vec![
                    Crates {
                        name: "nalgebra".to_owned(),
                        description: "General-purpose linear algebra library with transformations and statically-sized or dynamically-sized matrices. However it supports only vectors (1d) and matrices (2d) and not higher-dimensional tensors.,".to_owned(),
                        features: Option::Some(vec!["serde_serialize".to_owned()])
                    },
                    Crates {
                        name: "ndarray".to_owned(),
                        description: "Less featureful than nalgebra but supports arbitrarily dimensioned arrays,".to_owned(),
                        features: Option::None
                    },
                ],
            },
            TableEntry {
                use_case: String::new(),
                crates: vec![
                    Crates {
                        name: "polars".to_owned(),
                        description: "Similar to the Pandas library in Python but in pure Rust. Uses the Apache Arrow Columnar Format as the memory model.,".to_owned(),
                        features: Option::None
                    },
                    Crates {
                        name: "datafusion".to_owned(),
                        description: "Apache DataFusion,is an in-memory query engine that uses Apache Arrow as the memory model,".to_owned(),
                        features: Option::None
                    },
                ],
            },
        ],
    };
    proof {
        assert(t@.len() == 6);
        assert(t@[0].crates[0].name == "num-traits"@);
        assert(table_names(t@)[0] =~= math_crate_names()[0]);
        assert(table_names(t@)[1] =~= math_crate_names()[1]);
        assert(table_names(t@)[2] =~= math_crate_names()[2]);
        assert(table_names(t@)[3] =~= math_crate_names()[3]);
        assert(table_names(t@)[4] =~= math_crate_names()[4]);
        assert(table_names(t@)[5] =~= math_crate_names()[5]);
        assert(table_names(t@) =~= math_crate_names());
        assert forall|i: int| 0 <= i < t@.len() implies (#[trigger] t@[i].crates.len()) > 0 by {
            assert(t@[i].crates == t.entries@[i]@.crates);
        }
    }
    t
}

fn ffi_table() -> (t: Table)
    ensures
        table_names(t@) == ffi_crate_names(),
        t@.len() == 10,
        t@[0].crates.len() > 0,
        t@[0].crates[0].name == "bindgen"@,
        forall|i: int| 0 <= i < t@.len() ==> (#[trigger] t@[i].crates.len()) > 0,
{
    let t = Table {
        entries: vec![
            TableEntry {
                use_case: String::new(),
                crates: vec![
                    Crates {
                        name: "bindgen".to_owned(),
                        description: "Generate Rust bindings to C libraries,".to_owned(),
                        features: Option::None
                    },
                    Crates {
                        name: "cbindgen".to_owned(),
                        description: "Generate C bindings to Rust libraries,".to_owned(),
                        features: Option::None
                    },
                ],
            },
            TableEntry {
                use_case: String::new(),
                crates: vec![
                    Crates {
                        name: "cxx".to_owned(),
                        description: "Safe C++ <-> Rust interop by generating code for both sides.,".to_owned(),
                        features: Option::None
                    },
                ],
            },
            TableEntry {
                use_case: String::new(),
                crates: vec![
                    Crates {
                        name: "pyo3".to_owned(),
                        description: "Supports both calling python code from Rust and exposing Rust code to Python,".to_owned(),
                        features: Option::Some(vec!["extension-module".to_owned()])
                    },
                ],
            },
            TableEntry {
                use_case: String::new(),
                crates: vec![
                    Crates {
                        name: "napi".to_owned(),
                        description: "is a framework for building pre-compiled Node.js addons in Rust.,".to_owned(),
                        features: Option::None,
                    },
                    Crates {
                        name: "neon".to_owned(),
                        description: "Slower than napi, but also widely used and well-maintained,".to_owned(),
                        features: Option::None
                    },
                ],
            },
            TableEntry {
                use_case: String::new(),
                crates: vec![
                    Crates {
                        name: "rutie".to_owned(),
                        description: "Supports both embedding Rust into Ruby applications and embedding Ruby into Rust applications,".to_owned(),
                        features: Option::None
                    },
                ],
            },
            TableEntry {
                use_case: String::new(),
                crates: vec![
                    Crates {
                        name: "objc".to_owned(),
                        description: "Interop with the Objective-C runtime,".to_owned(),
                        features: Option::None
                    },
                ],
            },
            TableEntry {
                use_case: String::new(),
                crates: vec![
                    Crates {
                        name: "jni".to_owned(),
                        description: "Implement Java methods for JVM and Android in Rust. Call Java code from Rust. Embed JVM in Rust applications.,".to_owned(),
                        features: Option::None
                    },
                ],
            },
            TableEntry {
                use_case: String::new(),
                crates: vec![
                    Crates {
                        name: "mlua".to_owned(),
                        description: "Bindings to Lua 5.4, 5.3, 5.2, 5.1 (including LuaJIT),".to_owned(),
                        features: Option::Some(vec!["lua54 ".to_owned(), "vendored ".to_owned()])
                    },
                ],
            },
            TableEntry {
                use_case: String::new(),
                crates: vec![
                    Crates {
                        name: "flutter_rust_bridge".to_owned(),
                        description: "Works with Dart with or without Flutter,".to_owned(),
                        features: Option::None
                    },
                ],
            },
            TableEntry {
                use_case: String::new(),
                crates: vec![
                    Crates {
                        name: "rustler".to_owned(),
                        description: "Safe Rust bridge for creating Erlang NIF functions,".to_owned(),
                        features: Option::Some(vec!["nif_version_2_16".to_owned()])
                    },
                ],
            },
        ],
    };
    proof {
        assert(t@.len() == 10);
        assert(t@[0].crates[0].name == "bindgen"@);
        assert(table_names(t@)[0] =~= ffi_crate_names()[0]);
        assert(table_names(t@)[1] =~= ffi_crate_names()[1]);
        assert(table_names(t@)[2] =~= ffi_crate_names()[2]);
        assert(table_names(t@)[3] =~= ffi_crate_names()[3]);
        assert(table_names(t@)[4] =~= ffi_crate_names()[4]);
        assert(table_names(t@)[5] =~= ffi_crate_names()[5]);
        assert(table_names(t@)[6] =~= ffi_crate_names()[6]);
        assert(table_names(t@)[7] =~= ffi_crate_names()[7]);
        assert(table_names(t@)[8] =~= ffi_crate_names()[8]);
        assert(table_names(t@)[9] =~= ffi_crate_names()[9]);
        assert(table_names(t@) =~= ffi_crate_names());
        assert forall|i: int| 0 <= i < t@.len() implies (#[trigger] t@[i].crates.len()) > 0 by {
            assert(t@[i].crates == t.entries@[i]@.crates);
        }
    }
    t
}

fn cryptography_table() -> (t: Table)
    ensures
        table_names(t@) == cryptography_crate_names(),
        t@.len() == 8,
        t@[0].crates.len() > 0,
        t@[0].crates[0].name == "argon2"@,
        forall|i: int| 0 <= i < t@.len() ==> (#[trigger] t@[i].crates.len()) > 0,
{
    let t = Table {
        entries: vec![
            TableEntry {
                use_case: String::new(),
                crates: vec![
                    Crates {
                        name: "argon2".to_owned(),
                        description: "no description".to_owned(),
                        features: Option::Some(vec!["rand".to_owned()])
                    },
                    Crates {
                        name: "scrypt".to_owned(),
                        description: "no description".to_owned(),
                        features: Option::Some(vec!["password-hash".to_owned()])
                    },
                    Crates {
                        name: "bcrypt".to_owned(),
                        description: "no description".to_owned(),
                        features: Option::None
                    },
                ],
            },
            TableEntry {
                use_case: String::new(),
                crates: vec![
                    Crates {
                        name: "sha2".to_owned(),
                        description: "no description".to_owned(),
                        features: Option::None
                    },
                    Crates {
                        name: "sha1".to_owned(),
                        description: "no description".to_owned(),
                        features: Option::None
                    },
                    Crates {
                        name: "md-5".to_owned(),
                        description: "no description".to_owned(),
                        features: Option::None
                    },
                ],
            },
            TableEntry {
                use_case: String::new(),
                crates: vec![
                    Crates {
                        name: "aes-gcm-siv".to_owned(),
                        description: "no description".to_owned(),
                        features: Option::None
                    },
                    Crates {
                        name: "aes-gcm".to_owned(),
                        description: "no description".to_owned(),
                        features: Option::None
                    },
                    Crates {
                        name: "chacha20poly1305".to_owned(),
                        description: "no description".to_owned(),
                        features: Option::None
                    },
                ],
            },
            TableEntry {
                use_case: String::new(),
                crates: vec![
                    Crates {
                        name: "rsa".to_owned(),
                        description: "no description".to_owned(),
                        features: Option::None
                    },
                ],
            },
            TableEntry {
                use_case: String::new(),
                crates: vec![
                    Crates {
                        name: "ed25519".to_owned(),
                        description: "Use in conjunction with the ed25519-dalek crate.".to_owned(),
                        features: Option::None
                    },
                    Crates {
                        name: "ecdsa".to_owned(),
                        description: "no description".to_owned(),
                        features: Option::None
                    },
                    Crates {
                        name: "dsa".to_owned(),
                        description: "no description".to_owned(),
                        features: Option::None
                    },
                ],
            },
            TableEntry {
                use_case: String::new(),
                crates: vec![
                    Crates {
                        name: "der".to_owned(),
                        description: "no description".to_owned(),
                        features: Option::None
                    },
                    Crates {
                        name: "pem-rfc7468".to_owned(),
                        description: "no description".to_owned(),
                        features: Option::None
                    },
                    Crates {
                        name: "pkcs8".to_owned(),
                        description: "no description".to_owned(),
                        features: Option::None
                    },
                    Crates {
                        name: "x509-cert".to_owned(),
                        description: "no description".to_owned(),
                        features: Option::None
                    },
                ],
            },
            TableEntry {
                use_case: String::new(),
                crates: vec![
                    Crates {
                        name: "rustls".to_owned(),
                        description: "A portable pure-rust high-level implementation of TLS. Implements TLS 1.2 and higher.".to_owned(),
                        features: Option::None
                    },
                    Crates {
                        name: "native-tls".to_owned(),
                        description: "Delegates to the system TLS implementations on windows and macOS, and uses OpenSSL on linux.".to_owned(),
                        features: Option::None
                    },
                    Crates {
                        name: "webpki".to_owned(),
                        description: "X.509 Certificate validation. Builds on top of ring.".to_owned(),
                        features: Option::None
                    },
                    Crates {
                        name: "ring".to_owned(),
                        description: "Fork of BoringSSL. Provides low-level cryptographic primitives for TLS/SSL.".to_owned(),
                        features: Option::None
                    },
                ],
            },
            TableEntry {
                use_case: String::new(),
                crates: vec![
                    Crates {
                        name: "subtle".to_owned(),
                        description: "Utilities for writing constant-time algorithms.".to_owned(),
                        features: Option::None
                    },
                    Crates {
                        name: "zeroize".to_owned(),
                        description: "Securely erase memory.".to_owned(),
                        features: Option::None
                    },
                ],
            },
        ],
    };
    proof {
        assert(t@.len() == 8);
        assert(t@[0].crates[0].name == "argon2"@);
        assert(table_names(t@)[0] =~= cryptography_crate_names()[0]);
        assert(table_names(t@)[1] =~= cryptography_crate_names()[1]);
        assert(table_names(t@)[2] =~= cryptography_crate_names()[2]);
        assert(table_names(t@)[3] =~= cryptography_crate_names()[3]);
        assert(table_names(t@)[4] =~= cryptography_crate_names()[4]);
        assert(table_names(t@)[5] =~= cryptography_crate_names()[5]);
        assert(table_names(t@)[6] =~= cryptography_crate_names()[6]);
        assert(table_names(t@)[7] =~= cryptography_crate_names()[7]);
        assert(table_names(t@) =~= cryptography_crate_names());
        assert forall|i: int| 0 <= i < t@.len() implies (#[trigger] t@[i].crates.len()) > 0 by {
            assert(t@[i].crates == t.entries@[i]@.crates);
        }
    }
    t
}

fn clis_table() -> (t: Table)
    ensures
        table_names(t@) == clis_crate_names(),
        t@.len() == 3,
        t@[0].crates.len() > 0,
        t@[0].crates[0].name == "clap"@,
        forall|i: int| 0 <= i < t@.len() ==> (#[trigger] t@[i].crates.len()) > 0,
{
    let t = Table {
        entries: vec![
            TableEntry {
                use_case: String::new(),
                crates: vec![
                    Crates {
                        name: "clap".to_owned(),
                        description: "Ergonomic, battle-tested, includes the kitchen sink, and is fast at runtime. However compile times can be slow".to_owned(),
                        features: Option::Some(vec!["derive".to_owned()])
                    },
                    Crates {
                        name: "lexopt".to_owned(),
                        description: "Fast compile times, fast runtime, pedantic about correctness. API is less ergonomic".to_owned(),
                        features: Option::None
                    },
                    Crates {
                        name: "pico-args".to_owned(),
                        description: "Fast compile times, fast runtime, more lax about correctness. API is more ergonomic".to_owned(),
                        features: Option::None
                    },
                ],
            },
            TableEntry {
                use_case: String::new(),
                crates: vec![
                    Crates {
                        name: "globset".to_owned(),
                        description: "High-performance globbing that allows multiple globs to be evaluated at once".to_owned(),
                        features: Option::None
                    },
                    Crates {
                        name: "walkdir".to_owned(),
                        description: "Basic recursive filesystem walking.".to_owned(),
                        features: Option::None
                    },
                    Crates {
                        name: "ignore".to_owned(),
                        description: "Recursive filesystem walking that respects ignore files (like .gitignore)".to_owned(),
                        features: Option::None
                    },
                    Crates {
                        name: "notify".to_owned(),
                        description: "Watch files or directories and execute a function when they change".to_owned(),
                        features: Option::Some(vec!["serde".to_owned()])
                    },
                ],
            },
            TableEntry {
                use_case: String::new(),
                crates: vec![
                    Crates {
                        name: "termcolor".to_owned(),
                        description: "Cross-platform terminal colour output".to_owned(),
                        features: Option::None
                    },
                    Crates {
                        name: "indicatif".to_owned(),
                        description: "Progress bars and spinners".to_owned(),
                        features: Option::None
                    },
                    Crates {
                        name: "ratatui".to_owned(),
                        description: "A high-level TUI library with widgets, layout, etc.".to_owned(),
                        features: Option::Some(vec!["all-widgets".to_owned()])
                    },
                    Crates {
                        name: "crossterm".to_owned(),
                        description: "Low-level cross-platform terminal rendering and event handling".to_owned(),
                        features: Option::Some(vec!["event-stream".to_owned()])
                    },
                    Crates {
                        name: "inquire".to_owned(),
                        description: "Ask for confirmation, selection, text input and more".to_owned(),
                        features: Option::None
                    },
                ],
            },
        ],
    };
    proof {
        assert(t@.len() == 3);
        assert(t@[0].crates[0].name == "clap"@);
        assert(table_names(t@)[0] =~= clis_crate_names()[0]);
        assert(table_names(t@)[1] =~= clis_crate_names()[1]);
        assert(table_names(t@)[2] =~= clis_crate_names()[2]);
        assert(table_names(t@) =~= clis_crate_names());
        assert forall|i: int| 0 <= i < t@.len() implies (#[trigger] t@[i].crates.len()) > 0 by {
            assert(t@[i].crates == t.entries@[i]@.crates);
        }
    }
    t
}

fn common_table() -> (t: Table)
    ensures
        table_names(t@) == common_crate_names(),
        t@.len() == 4,
        t@[0].crates.len() > 0,
        t@[0].crates[0].name == "anyhow"@,
        forall|i: int| 0 <= i < t@.len() ==> (#[trigger] t@[i].crates.len()) > 0,
{
    let t = Table {
        entries: vec![
            TableEntry {
                use_case: String::new(),
                crates: vec![
                    Crates {
                        name: "anyhow".to_owned(),
                        description: "Provides a boxed error type that can hold any error, and helpers for generating an application-level stack trace.".to_owned(),
                        features: Option::None
                    },
                    Crates {
                        name: "color-eyre".to_owned(),
                        description: "A fork of anyhow that gives you more control over the format of the generated error messages. Recommended if you intend to present error messages to end users. Otherwise anyhow is simpler.".to_owned(),
                        features: Option::None
                    },
                    Crates {
                        name: "thiserror".to_owned(),
                        description: "Helps with generating boilerplate for enum-style error types.".to_owned(),
                        features: Option::None
                    },
                ],
            },
            TableEntry {
                use_case: String::new(),
                crates: vec![
                    Crates {
                        name: "tracing".to_owned(),
                        description: "Tracing is now the go-to crate for logging.".to_owned(),
                        features: Option::None
                    },
                    Crates {
                        name: "log".to_owned(),
                        description: "An older and simpler crate if your needs are simple and you are not using any async code.".to_owned(),
                        features: Option::None
                    },
                    Crates {
                        name: "tracing".to_owned(),
                        description: "Tracing is now the go-to crate for logging.".to_owned(),
                        features: Option::None
                    },
                    Crates {
                        name: "slog".to_owned(),
                        description: "Structured logging".to_owned(),
                        features: Option::Some(vec!["max_level_trace ".to_owned(), "release_max_level_warn ".to_owned()])
                    },
                ],
            },
            TableEntry {
                use_case: String::new(),
                crates: vec![
                    Crates {
                        name: "once_cell".to_owned(),
                        description: "Newer crate with more ergonomic API. Should be preferred for all new projects.".to_owned(),
                        features: Option::None
                    },
                    Crates {
                        name: "lazy_static".to_owned(),
                        description: "Older crate. API is less convenient, but crate is stable and maintained.".to_owned(),
                        features: Option::None
                    },
                    Crates {
                        name: "itertools".to_owned(),
                        description: "A bunch of useful methods on iterators that aren't in the stdlib".to_owned(),
                        features: Option::None
                    },
                    Crates {
                        name: "syn".to_owned(),
                        description: "Parse rust source code".to_owned(),
                        features: Option::Some(vec!["full".to_owned()])
                    },
                    Crates {
                        name: "quote".to_owned(),
                        description: "Quasi quoting rust (useful for interpolating generated code with literal code)".to_owned(),
                        features: Option::None
                    },
                    Crates {
                        name: "paste".to_owned(),
                        description: "Concatenating and manipulating identifiers".to_owned(),
                        features: Option::None
                    },
                    Crates {
                        name: "bytemuck".to_owned(),
                        description: "no description".to_owned(),
                        features: Option::Some(vec!["derive".to_owned()])
                    },
                    Crates {
                        name: "zerocopy".to_owned(),
                        description: "no description".to_owned(),
                        features: Option::None
                    },
                    Crates {
                        name: "bitflags".to_owned(),
                        description: "Strongly typed bitflag types".to_owned(),
                        features: Option::None
                    },
                ],
            },
            TableEntry {
                use_case: String::new(),
                crates: vec![
                    Crates {
                        name: "memmap2".to_owned(),
                        description: "The older memmap crate is unmaintained.".to_owned(),
                        features: Option::None
                    },
                    Crates {
                        name: "libc".to_owned(),
                        description: "Bindings for directly calling libc functions.".to_owned(),
                        features: Option::None
                    },
                    Crates {
                        name: "windows".to_owned(),
                        description: "The official Microsoft-provided crate for interacting with windows APIs".to_owned(),
                        features: Option::Some(vec![
                                "Data_Xml_Dom".to_owned(),
                                "Win32_Foundation".to_owned(),
                                "Win32_Security".to_owned(),
                                "Win32_System_Threading".to_owned(),
                                "Win32_UI_WindowsAndMessaging".to_owned(),
                        ])
                    },
                    Crates {
                        name: "winapi".to_owned(),
                        description: "Older binding to the windows APIs. Unofficial, but more complete than windows-rs".to_owned(),
                        features: Option::None
                    },
                    Crates {
                        name: "nix".to_owned(),
                        description: "Bindings to the various *nix system functions. (Unix, Linux, MacOS, etc.)".to_owned(),
                        features: Option::None
                    },
                ],
            },
        ],
    };
    proof {
        assert(t@.len() == 4);
        assert(t@[0].crates[0].name == "anyhow"@);
        assert(table_names(t@)[0] =~= common_crate_names()[0]);
        assert(table_names(t@)[1] =~= common_crate_names()[1]);
        assert(table_names(t@)[2] =~= common_crate_names()[2]);
        assert(table_names(t@)[3] =~= common_crate_names()[3]);
        assert(table_names(t@) =~= common_crate_names());
        assert forall|i: int| 0 <= i < t@.len() implies (#[trigger] t@[i].crates.len()) > 0 by {
            assert(t@[i].crates == t.entries@[i]@.crates);
        }
    }
    t
}

fn graphics_table() -> (t: Table)
    ensures
        table_names(t@) == graphics_crate_names(),
        t@.len() == 2,
        t@[0].crates.len() > 0,
        t@[0].crates[0].name == "gtk4"@,
        forall|i: int| 0 <= i < t@.len() ==> (#[trigger] t@[i].crates.len()) > 0,
{
    let t = Table {
        entries: vec![
            TableEntry {
                use_case: String::new(),
                crates: vec![
                    Crates {
                        name: "gtk4".to_owned(),
                        description: "Rust bindings to GTK4. These are quite well supported, although you'll often need to use the C documentation.".to_owned(),
                        features: Option::Some(vec!["v4_2".to_owned()])
                    },
                    Crates {
                        name: "relm4".to_owned(),
                        description: "A higher-level library that sits on top of gtk4-rs".to_owned(),
                        features: Option::None
                    },
                    Crates {
                        name: "tauri".to_owned(),
                        description: "Electron-like web-based UI. Except it uses system webviews rather than shipping chromium, and non-UI code is written in Rust rather than node.js".to_owned(),
                        features: Option::None
                    },
                    Crates {
                        name: "dioxus".to_owned(),
                        description: "A very nice API layer that has Tauri, Web, and TUI renderers. A native renderer is coming soon.".to_owned(),
                        features: Option::Some(vec!["fullstack".to_owned()])
                    },
                    Crates {
                        name: "egui".to_owned(),
                        description: "Immediate-mode UI. Lots of widgets. The most useable out of the box if your needs are simple and you don't need to customise of the look and feel".to_owned(),
                        features: Option::None
                    },
                    Crates {
                        name: "iced".to_owned(),
                        description: "Retained mode UI with a nice API. It's useable for basic apps, but has a number of missing features including multiple windows, layers, and proper text rendering.".to_owned(),
                        features: Option::None
                    },
                    Crates {
                        name: "floem".to_owned(),
                        description: "Inspired by Xilem, Leptos and rui, floem is currently more complete than any of them for native UI. Used by the Lapce text editor.".to_owned(),
                        features: Option::None
                    },
                    Crates {
                        name: "vizia".to_owned(),
                        description: "Fairly complete with sophisticated layout and text layout, but has yet to make a stable release.".to_owned(),
                        features: Option::None
                    },
                    Crates {
                        name: "winit".to_owned(),
                        description: "The defacto standard option. Uses an event loop based architecture. Widely used and should probably be the default choice.".to_owned(),
                        features: Option::None
                    },
                    Crates {
                        name: "tao".to_owned(),
                        description: "A fork of winit by the Tauri project which adds support for things like system menus that desktop apps need.".to_owned(),
                        features: Option::None
                    },
                    Crates {
                        name: "glazier".to_owned(),
                        description: "A new competitor to winit based on the old druid-shell. Has a callback that may be better than the event loop architecture for some tasks. Doesn't yet have a stable release.".to_owned(),
                        features: Option::None
                    },
                    Crates {
                        name: "baseview".to_owned(),
                        description: "Specialized window creation library targetting windows to be embedded in other applications (e.g. DAW plugins)".to_owned(),
                        features: Option::None
                    },
                    Crates {
                        name: "femtovg".to_owned(),
                        description: "OpenGL based. Offers a simple API. Probably the easiest to get started with.".to_owned(),
                        features: Option::Some(vec!["serde".to_owned()])
                    },
                    Crates {
                        name: "skia-safe".to_owned(),
                        description: "Bindings to the Skia C++ library. The most complete option with excellent performance. However, it can be difficult to get it to compile.".to_owned(),
                        features: Option::None
                    },
                    Crates {
                        name: "vello".to_owned(),
                        description: "WGPU based and uses cutting edge techniques to render vector paths using the GPU. Still somewhat immature and hasn't yet put out a stable release.".to_owned(),
                        features: Option::None
                    },
                    Crates {
                        name: "vger".to_owned(),
                        description: "A simpler WGPU based option which is less innovative but currently more stable than vello.".to_owned(),
                        features: Option::None
                    },
                    Crates {
                        name: "webrender".to_owned(),
                        description: "OpenGL based. Mature with production usage in Firefox but documentation and OSS maintenance are lacking.".to_owned(),
                        features: Option::None
                    },
                    Crates {
                        name: "taffy".to_owned(),
                        description: "Supports Flexbox and CSS Grid algorithms.".to_owned(),
                        features: Option::Some(vec!["serde".to_owned(), "flexbox".to_owned()])
                    },
                    Crates {
                        name: "morphorm".to_owned(),
                        description: "Implements it's own layout algorithm based on Subform layout".to_owned(),
                        features: Option::None
                    },
                    Crates {
                        name: "cosmic-text".to_owned(),
                        description: "Full text layout including rich text and support for BiDi and non-latin scripts. The best option for now.".to_owned(),
                        features: Option::None
                    },
                    Crates {
                        name: "parley".to_owned(),
                        description: "Another very accomplished text layout library used by Druid/Xilem.".to_owned(),
                        features: Option::None
                    },
                    Crates {
                        name: "accesskit".to_owned(),
                        description: "Allows you to export a semantic tree representing your UI to make accessible to screen readers and other assistive technologies".to_owned(),
                        features: Option::None
                    },
                    Crates {
                        name: "arboard".to_owned(),
                        description: "A fork of rust-clipboard that supports copy and pasting of both text and images on Linux (X11/Wayland), MacOS and Windows.".to_owned(),
                        features: Option::None
                    },
                    Crates {
                        name: "rfd".to_owned(),
                        description: "Platform-native open/save file dialogs. Can be used in conjunction with other UI libraries.".to_owned(),
                        features: Option::None
                    },
                ],
            },
            TableEntry {
                use_case: String::new(),
                crates: vec![
                    Crates {
                        name: "bevy".to_owned(),
                        description: "An ECS based game engine, good for 3D but also capable of 2D.".to_owned(),
                        features: Option::None
                    },
                    Crates {
                        name: "fyrox".to_owned(),
                        description: "An OOP-focused game engine with 3D and 2D support and a full GUI scene editor.".to_owned(),
                        features: Option::None
                    },
                    Crates {
                        name: "ggez".to_owned(),
                        description: "A simpler option for 2d games only.".to_owned(),
                        features: Option::None
                    },
                    Crates {
                        name: "macroquad".to_owned(),
                        description: "A simple and easy to use 2d game library, great for beginners.".to_owned(),
                        features: Option::None
                    },
                    Crates {
                        name: "glam".to_owned(),
                        description: "Fast math library optimised for game development use cases".to_owned(),
                        features: Option::None
                    },
                ],
            },
        ],
    };
    proof {
        assert(t@.len() == 2);
        assert(t@[0].crates[0].name == "gtk4"@);
        assert(table_names(t@)[0] =~= graphics_crate_names()[0]);
        assert(table_names(t@)[1] =~= graphics_crate_names()[1]);
        assert(table_names(t@) =~= graphics_crate_names());
        assert forall|i: int| 0 <= i < t@.len() implies (#[trigger] t@[i].crates.len()) > 0 by {
            assert(t@[i].crates == t.entries@[i]@.crates);
        }
    }
    t
}

fn databases_table() -> (t: Table)
    ensures
        table_names(t@) == databases_crate_names(),
        t@.len() == 3,
        t@[0].crates.len() > 0,
        t@[0].crates[0].name == "sqlx"@,
        forall|i: int| 0 <= i < t@.len() ==> (#[trigger] t@[i].crates.len()) > 0,
{
    let t = Table {
        entries: vec![
            TableEntry {
                use_case: String::new(),
                crates: vec![
                    Crates {
                        name: "sqlx".to_owned(),
                        description: "Works with Postgres, MySQL, SQLite, and MS SQL.Supports compile time checking of queries. Async: supports both tokio and async-std.".to_owned(),
                        features: Option::Some(vec!["runtime-tokio".to_owned(), "tls-native-tls".to_owned(), "macros".to_owned(), "chrono".to_owned(), "mysql".to_owned()])
                    },
                    Crates {
                        name: "diesel".to_owned(),
                        description: "Has excellent performance and takes an approach of strict compile time guarantees. The main crate is Sync only, but diesel-async provides an async connection implementation.".to_owned(),
                        features: Option::Some(vec!["mysql".to_owned()])
                    },
                    Crates {
                        name: "sea-orm".to_owned(),
                        description: "Built on top of sqlx (see above). There is also a related sea-query crate that provides a query builder without full ORM functionality.".to_owned(),
                        features: Option::None
                    },
                    Crates {
                        name: "tokio-postgres".to_owned(),
                        description: "Postgres-specific library. Performs better than SQLx".to_owned(),
                        features: Option::None
                    },
                    Crates {
                        name: "mysql_async".to_owned(),
                        description: "Has a poorly designed API. Prefer SQLx or Diesel for MySQL".to_owned(),
                        features: Option::Some(vec!["derive".to_owned()])
                    },
                    Crates {
                        name: "rusqlite".to_owned(),
                        description: "Provides a sync API to SQLite + provides access to advanced sqlite features.".to_owned(),
                        features: Option::Some(vec!["bundled".to_owned()])
                    },
                    Crates {
                        name: "tiberius".to_owned(),
                        description: "MS SQL specific library. Has better support for advanced column types than SQLx.".to_owned(),
                        features: Option::Some(vec!["chrono".to_owned(), "rustls".to_owned()])
                    },
                    Crates {
                        name: "diesel-oci".to_owned(),
                        description: "Diesel backend and connection implementation for oracle databases".to_owned(),
                        features: Option::None
                    },
                    Crates {
                        name: "oracle".to_owned(),
                        description: "Rust bindings to ODPI-C".to_owned(),
                        features: Option::Some(vec!["chrono".to_owned(), ])
                    },
                ],
            },
            TableEntry {
                use_case: String::new(),
                crates: vec![
                    Crates {
                        name: "redis".to_owned(),
                        description: "no description ".to_owned(),
                        features: Option::None
                    },
                    Crates {
                        name: "mongodb".to_owned(),
                        description: "no description ".to_owned(),
                        features: Option::Some(vec!["async-std-runtime".to_owned()])
                    },
                    Crates {
                        name: "elasticsearch".to_owned(),
                        description: "no description ".to_owned(),
                        features: Option::None
                    },
                    Crates {
                        name: "rocksdb".to_owned(),
                        description: "no description ".to_owned(),
                        features: Option::None
                    },
                    Crates {
                        name: "cassandra-protocol".to_owned(),
                        description: "Low-level Cassandra protocol implementation.".to_owned(),
                        features: Option::None
                    },
                    Crates {
                        name: "cdrs-tokio".to_owned(),
                        description: "High-level async Cassandra driver.".to_owned(),
                        features: Option::None
                    },
                ],
            },
            TableEntry {
                use_case: String::new(),
                crates: vec![
                    Crates {
                        name: "deadpool".to_owned(),
                        description: "A dead simple async pool for connections and objects of any type.".to_owned(),
                        features: Option::Some(vec!["serde".to_owned()])
                    },
                ],
            },
        ],
    };
    proof {
        assert(t@.len() == 3);
        assert(t@[0].crates[0].name == "sqlx"@);
        assert(table_names(t@)[0] =~= databases_crate_names()[0]);
        assert(table_names(t@)[1] =~= databases_crate_names()[1]);
        assert(table_names(t@)[2] =~= databases_crate_names()[2]);
        assert(table_names(t@) =~= databases_crate_names());
        assert forall|i: int| 0 <= i < t@.len() implies (#[trigger] t@[i].crates.len()) > 0 by {
            assert(t@[i].crates == t.entries@[i]@.crates);
        }
    }
    t
}

fn networking_table() -> (t: Table)
    ensures
        table_names(t@) == networking_crate_names(),
        t@.len() == 4,
        t@[0].crates.len() > 0,
        t@[0].crates[0].name == "tokio"@,
        forall|i: int| 0 <= i < t@.len() ==> (#[trigger] t@[i].crates.len()) > 0,
{
    let t = Table {
        entries: vec![
            TableEntry {
                use_case: String::new(),
                crates: vec![
                    Crates {
                        name: "tokio".to_owned(),
                        description: "The oldest async runtime in the Rust ecosystem and still the most widely supported. Recommended for new projects.".to_owned(),
                        features: Option::Some(vec!["full".to_owned()])
                    },
                    Crates {
                        name: "futures-executor".to_owned(),
                        description: "A minimal executor. In particular, the block_on function is useful if you want to run an async function synchronously in codebase that is mostly synchronous.".to_owned(),
                        features: Option::None
                    },
                    Crates {
                        name: "futures".to_owned(),
                        description: "Utility functions for working with Futures and Streams".to_owned(),
                        features: Option::None
                    },
                    Crates {
                        name: "async-trait".to_owned(),
                        description: "Provides a workaround for the lack of language support for async functions in traits".to_owned(),
                        features: Option::None
                    },
                    Crates {
                        name: "glommio".to_owned(),
                        description: "Use if you need io_uring support. Still somewhat experimental but rapidly maturing.".to_owned(),
                        features: Option::None
                    },
                ],
            },
            TableEntry {
                use_case: String::new(),
                crates: vec![
                    Crates {
                        name: "http".to_owned(),
                        description: "The `http` crate doesn't actually contain an HTTP implementation. Just types and interfaces to help interoperability.".to_owned(),
                        features: Option::None
                    },
                    Crates {
                        name: "hyper".to_owned(),
                        description: "A low-level HTTP implementation (both client and server). Implements HTTP/1, and HTTP/2. Works best with the tokio async runtime, but can support other runtimes.".to_owned(),
                        features: Option::None
                    },
                    Crates {
                        name: "reqwest".to_owned(),
                        description: "Full-fat HTTP client. Can be used in both synchronous and asynchronous code. Requires tokio runtime.".to_owned(),
                        features: Option::Some(vec!["json".to_owned()])
                    },
                    Crates {
                        name: "ureq".to_owned(),
                        description: "Minimal synchronous HTTP client focussed on simplicity and minimising dependencies.".to_owned(),
                        features: Option::Some(vec!["json".to_owned()])
                    },
                    Crates {
                        name: "axum".to_owned(),
                        description: "A minimal and ergonomic framework. An official part of the tokio project. Recommend for most new projects.".to_owned(),
                        features: Option::Some(vec!["multipart".to_owned(),])
                    },
                    Crates {
                        name: "actix-web".to_owned(),
                        description: "A performance focussed framework. All Rust frameworks are fast, but choose actix-web if you need the absolutely maximum performance.".to_owned(),
                        features: Option::None
                    },
                    Crates {
                        name: "async-graphql".to_owned(),
                        description: "A high-performance graphql server library that's fully specification compliant. Integrates with actix-web, axum, poem, rocket, tide, warp.".to_owned(),
                        features: Option::Some(vec!["chrono".to_owned()])
                    },
                ],
            },
            TableEntry {
                use_case: String::new(),
                crates: vec![
                    Crates {
                        name: "tungstenite".to_owned(),
                        description: "Low-level crate that others build on".to_owned(),
                        features: Option::None
                    },
                    Crates {
                        name: "tokio-tungstenite".to_owned(),
                        description: "If you are using the tokio executor".to_owned(),
                        features: Option::None
                    },
                    Crates {
                        name: "async-tungstenite".to_owned(),
                        description: "If you are using the async-std executor".to_owned(),
                        features: Option::None
                    },
                ],
            },
            TableEntry {
                use_case: String::new(),
                crates: vec![
                    Crates {
                        name: "tonic".to_owned(),
                        description: "gRPC over HTTP/2 with full support for asynchronous code. Works with tokio".to_owned(),
                        features: Option::None
                    },
                ],
            },
        ],
    };
    proof {
        assert(t@.len() == 4);
        assert(t@[0].crates[0].name == "tokio"@);
        assert(table_names(t@)[0] =~= networking_crate_names()[0]);
        assert(table_names(t@)[1] =~= networking_crate_names()[1]);
        assert(table_names(t@)[2] =~= networking_crate_names()[2]);
        assert(table_names(t@)[3] =~= networking_crate_names()[3]);
        assert(table_names(t@) =~= networking_crate_names());
        assert forall|i: int| 0 <= i < t@.len() implies (#[trigger] t@[i].crates.len()) > 0 by {
            assert(t@[i].crates == t.entries@[i]@.crates);
        }
    }
    t
}

fn concurrency_table() -> (t: Table)
    ensures
        table_names(t@) == concurrency_crate_names(),
        t@.len() == 1,
        t@[0].crates.len() > 0,
        t@[0].crates[0].name == "parking_lot"@,
        forall|i: int| 0 <= i < t@.len() ==> (#[trigger] t@[i].crates.len()) > 0,
{
    let t = Table {
        entries: vec![
            TableEntry {
                use_case: String::new(),
                crates: vec![
                    Crates {
                        name: "parking_lot".to_owned(),
                        description: "std::sync::Mutex also works fine. But Parking Lot is faster.".to_owned(),
                        features: Option::None
                    },
                    Crates {
                        name: "arc-swap".to_owned(),
                        description: "Useful for sharing data that has many readers but few writers".to_owned(),
                        features: Option::None
                    },
                    Crates {
                        name: "dashmap".to_owned(),
                        description: "The fastest for general purpose workloads".to_owned(),
                        features: Option::Some(vec!["serde ".to_owned(), "rayon ".to_owned()])
                    },
                    Crates {
                        name: "flurry".to_owned(),
                        description: "Particularly good for read-heavy workloads.".to_owned(),
                        features: Option::None
                    },
                    Crates {
                        name: "crossbeam-channel".to_owned(),
                        description: "The absolute fastest channel implementation available. Implements Go-like 'select' feature.".to_owned(),
                        features: Option::None
                    },
                    Crates {
                        name: "flume".to_owned(),
                        description: "Smaller and simpler than crossbeam-channel and almost as fast".to_owned(),
                        features: Option::None
                    },
                    Crates {
                        name: "tokio".to_owned(),
                        description: "Tokio's sync module provides channels for using in async code".to_owned(),
                        features: Option::Some(vec!["full".to_owned()])
                    },
                    Crates {
                        name: "postage".to_owned(),
                        description: "Channels that integrate nicely with async code, with different options than Tokio".to_owned(),
                        features: Option::None
                    },
                    Crates {
                        name: "rayon".to_owned(),
                        description: "Convert sequential computation into parallel computation with one call - `par_iter` instead of `iter`".to_owned(),
                        features: Option::None
                    },
                ],
            },
        ],
    };
    proof {
        assert(t@.len() == 1);
        assert(t@[0].crates[0].name == "parking_lot"@);
        assert(table_names(t@)[0] =~= concurrency_crate_names()[0]);
        assert(table_names(t@) =~= concurrency_crate_names());
        assert forall|i: int| 0 <= i < t@.len() implies (#[trigger] t@[i].crates.len()) > 0 by {
            assert(t@[i].crates == t.entries@[i]@.crates);
        }
    }
    t
}

impl ContentParser {
    /// The built-in table of generally useful crates.
    pub fn get_general_crates(&self) -> (t: Table)
        ensures
            table_names(t@) == general_crate_names(),
            t@.len() == 10,
            t@[0].crates.len() > 0,
            t@[0].crates[0].name == "rand"@,
            forall|i: int| 0 <= i < t@.len() ==> (#[trigger] t@[i].crates.len()) > 0,
    {
        general_table()
    }

    /// The built-in table of a category without sub-groups.
    pub fn get_crates(&self, category: Categories) -> (t: Table)
        ensures
            t@.len() > 0,
            forall|i: int| 0 <= i < t@.len() ==> (#[trigger] t@[i].crates.len()) > 0,
            category == Categories::Math ==> t@.len() == 6 && table_names(t@)
                == math_crate_names(),
            category == Categories::FFI ==> t@.len() == 10 && table_names(t@)
                == ffi_crate_names(),
            category == Categories::Cryptography ==> t@.len() == 8 && table_names(t@)
                == cryptography_crate_names(),
    {
        match category {
            Categories::Math => math_table(),
            Categories::FFI => ffi_table(),
            Categories::Cryptography => cryptography_table(),
        }
    }

    /// The built-in table of a category built from sub-groups.
    pub fn get_crates_with_sub(&self, category: CategoriesWithSubCategories) -> (t: Table)
        ensures
            t@.len() > 0,
            forall|i: int| 0 <= i < t@.len() ==> (#[trigger] t@[i].crates.len()) > 0,
            category == CategoriesWithSubCategories::Common ==> t@.len() == 4 && table_names(
                t@,
            ) == common_crate_names(),
            category == CategoriesWithSubCategories::Concurrency ==> t@.len() == 1
                && table_names(t@) == concurrency_crate_names(),
            category == CategoriesWithSubCategories::Networking ==> t@.len() == 4
                && table_names(t@) == networking_crate_names(),
            category == CategoriesWithSubCategories::Databases ==> t@.len() == 3
                && table_names(t@) == databases_crate_names(),
            category == CategoriesWithSubCategories::Clis ==> t@.len() == 3 && table_names(
                t@,
            ) == clis_crate_names(),
            category == CategoriesWithSubCategories::Graphics ==> t@.len() == 2
                && table_names(t@) == graphics_crate_names(),
    {
        match category {
            CategoriesWithSubCategories::Common => common_table(),
            CategoriesWithSubCategories::Concurrency => concurrency_table(),
            CategoriesWithSubCategories::Networking => networking_table(),
            CategoriesWithSubCategories::Databases => databases_table(),
            CategoriesWithSubCategories::Clis => clis_table(),
            CategoriesWithSubCategories::Graphics => graphics_table(),
        }
    }
}

} // verus!
