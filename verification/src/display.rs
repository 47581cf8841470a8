use crate::binary_subtype::BinarySubtype;
use crate::document::DocumentIter;
use crate::index::{IndexModel, IndexOptions};
use crate::object::{
    Binary, Decimal128, JavaScriptCode, JavaScriptCodeWithScope, MaxKey, MinKey, ObjectId, Regex,
    Symbol, Timestamp, Undefined,
};
use crate::text::{decimal_string, decimal_text, hex_string, hex_text, join3, join5};
use crate::value::copy_bytes;
use vstd::prelude::*;
use vstd::string::*;

verus! {

/// The name under which the host sees a binary subtype: the names of the
/// eight known subtypes, and for the others their class with the raw byte.
pub open spec fn subtype_text(subtype: BinarySubtype) -> Seq<char> {
    if subtype.id == 0 {
        "Generic"@
    } else if subtype.id == 1 {
        "Function"@
    } else if subtype.id == 2 {
        "BinaryOld"@
    } else if subtype.id == 3 {
        "UuidOld"@
    } else if subtype.id == 4 {
        "Uuid"@
    } else if subtype.id == 5 {
        "Md5"@
    } else if subtype.id == 6 {
        "Encrypted"@
    } else if subtype.id == 7 {
        "Column"@
    } else if subtype.id < 0x80 {
        "Reserved("@ + decimal_text(subtype.value as nat) + ")"@
    } else {
        "UserDefined("@ + decimal_text(subtype.value as nat) + ")"@
    }
}

impl Undefined {
    /// The representation that the host shows for the value.
    pub fn __repr__(&self) -> (text: String)
        ensures
            text@ == "ruson.types.Undefined"@,
    {
        "ruson.types.Undefined".to_owned()
    }

    /// The text that the host shows for the value.
    pub fn __str__(&self) -> (text: String)
        ensures
            text@ == "Undefined"@,
    {
        "Undefined".to_owned()
    }
}

impl MaxKey {
    /// The representation that the host shows for the value.
    pub fn __repr__(&self) -> (text: String)
        ensures
            text@ == "ruson.types.MaxKey"@,
    {
        "ruson.types.MaxKey".to_owned()
    }

    /// The text that the host shows for the value.
    pub fn __str__(&self) -> (text: String)
        ensures
            text@ == "MaxKey"@,
    {
        "MaxKey".to_owned()
    }
}

impl MinKey {
    /// The representation that the host shows for the value.
    pub fn __repr__(&self) -> (text: String)
        ensures
            text@ == "ruson.types.MinKey"@,
    {
        "ruson.types.MinKey".to_owned()
    }

    /// The text that the host shows for the value.
    pub fn __str__(&self) -> (text: String)
        ensures
            text@ == "MinKey"@,
    {
        "MinKey".to_owned()
    }
}

impl Symbol {
    /// The representation that the host shows for the value.
    pub fn __repr__(&self) -> (text: String)
        ensures
            text@ == "ruson.types.Symbol(symbol=\""@ + self.symbol@ + "\")"@,
    {
        join3("ruson.types.Symbol(symbol=\"", self.symbol.as_str(), "\")")
    }

    /// The text that the host shows for the value.
    pub fn __str__(&self) -> (text: String)
        ensures
            text@ == self.symbol@,
    {
        self.symbol.clone()
    }
}

impl JavaScriptCode {
    /// The representation that the host shows for the value.
    pub fn __repr__(&self) -> (text: String)
        ensures
            text@ == "ruson.types.JavaScriptCode(code=\""@ + self.code@ + "\")"@,
    {
        join3("ruson.types.JavaScriptCode(code=\"", self.code.as_str(), "\")")
    }

    /// The text that the host shows for the value.
    pub fn __str__(&self) -> (text: String)
        ensures
            text@ == self.code@,
    {
        self.code.clone()
    }
}

impl JavaScriptCodeWithScope {
    /// The representation of the wrapper, around the text under which the
    /// host shows the scope.
    pub fn __repr__(&self, scope: &str) -> (text: String)
        ensures
            text@ == "ruson.types.JavaScriptCodeWithScope(code=\""@ + self.code@ + "\", scope="@
                + scope@ + ")"@,
    {
        join5(
            "ruson.types.JavaScriptCodeWithScope(code=\"",
            self.code.as_str(),
            "\", scope=",
            scope,
            ")",
        )
    }

    /// The text that the host shows for the value.
    pub fn __str__(&self) -> (text: String)
        ensures
            text@ == self.code@,
    {
        self.code.clone()
    }
}

impl Timestamp {
    /// The representation that the host shows for the value.
    pub fn __repr__(&self) -> (text: String)
        ensures
            text@ == "ruson.types.Timestamp(timestamp="@ + decimal_text(self.timestamp as nat)
                + ")"@,
    {
        let seconds = decimal_string(self.timestamp as u64);
        join3("ruson.types.Timestamp(timestamp=", seconds.as_str(), ")")
    }

    /// The text that the host shows for the value.
    pub fn __str__(&self) -> (text: String)
        ensures
            text@ == decimal_text(self.timestamp as nat),
    {
        decimal_string(self.timestamp as u64)
    }
}

impl Regex {
    /// The representation that the host shows for the value.
    pub fn __repr__(&self) -> (text: String)
        ensures
            text@ == "ruson.types.Regex(regex=\""@ + self.pattern@ + "\", options=\""@
                + self.options@ + "\")"@,
    {
        join5(
            "ruson.types.Regex(regex=\"",
            self.pattern.as_str(),
            "\", options=\"",
            self.options.as_str(),
            "\")",
        )
    }

    /// The text that the host shows for the value.
    pub fn __str__(&self) -> (text: String)
        ensures
            text@ == self.pattern@,
    {
        self.pattern.clone()
    }
}

impl BinarySubtype {
    /// The name of the subtype.
    pub fn to_string(&self) -> (text: String)
        ensures
            text@ == subtype_text(*self),
    {
        if self.id == 0 {
            "Generic".to_owned()
        } else if self.id == 1 {
            "Function".to_owned()
        } else if self.id == 2 {
            "BinaryOld".to_owned()
        } else if self.id == 3 {
            "UuidOld".to_owned()
        } else if self.id == 4 {
            "Uuid".to_owned()
        } else if self.id == 5 {
            "Md5".to_owned()
        } else if self.id == 6 {
            "Encrypted".to_owned()
        } else if self.id == 7 {
            "Column".to_owned()
        } else if self.id < 0x80 {
            let value = decimal_string(self.value as u64);
            join3("Reserved(", value.as_str(), ")")
        } else {
            let value = decimal_string(self.value as u64);
            join3("UserDefined(", value.as_str(), ")")
        }
    }

    /// The name of the subtype.
    pub fn get_value(&self) -> (text: String)
        ensures
            text@ == subtype_text(*self),
    {
        self.to_string()
    }

    /// The representation that the host shows for the value.
    pub fn __repr__(&self) -> (text: String)
        ensures
            text@ == "ruson.types.BinarySubtype."@ + subtype_text(*self),
    {
        let name = self.to_string();
        let mut text = "ruson.types.BinarySubtype.".to_owned();
        text.append(name.as_str());
        text
    }

    /// The text that the host shows for the value.
    pub fn __str__(&self) -> (text: String)
        ensures
            text@ == subtype_text(*self),
    {
        self.to_string()
    }
}

impl Binary {
    /// The representation that the host shows for the value.
    pub fn __repr__(&self) -> (text: String)
        ensures
            text@ == "ruson.types.Binary(subtype="@ + subtype_text(self.subtype) + ", bytes=\""@
                + hex_text(self.bytes@) + "\")"@,
    {
        let subtype = self.subtype.to_string();
        let bytes = hex_string(self.bytes.as_slice());
        join5("ruson.types.Binary(subtype=", subtype.as_str(), ", bytes=\"", bytes.as_str(), "\")")
    }

    /// The text that the host shows for the value.
    pub fn __str__(&self) -> (text: String)
        ensures
            text@ == hex_text(self.bytes@),
    {
        hex_string(self.bytes.as_slice())
    }

    /// The payload, as a copy.
    pub fn get_bytes(&self) -> (bytes: Vec<u8>)
        ensures
            bytes@ == self.bytes@,
    {
        copy_bytes(&self.bytes)
    }

    /// The payload in hexadecimal.
    pub fn get_value(&self) -> (text: String)
        ensures
            text@ == hex_text(self.bytes@),
    {
        hex_string(self.bytes.as_slice())
    }
}

impl ObjectId {
    /// The representation that the host shows for the value.
    pub fn __repr__(&self) -> (text: String)
        ensures
            text@ == "ruson.types.ObjectId(\""@ + hex_text(self.id@) + "\")"@,
    {
        let id = hex_string(self.id.as_slice());
        join3("ruson.types.ObjectId(\"", id.as_str(), "\")")
    }

    /// The text that the host shows for the value.
    pub fn __str__(&self) -> (text: String)
        ensures
            text@ == hex_text(self.id@),
    {
        hex_string(self.id.as_slice())
    }

    /// The twelve bytes in hexadecimal.
    pub fn get_value(&self) -> (text: String)
        ensures
            text@ == hex_text(self.id@),
    {
        hex_string(self.id.as_slice())
    }
}

impl Decimal128 {
    /// The representation that the host shows for the value.
    pub fn __repr__(&self) -> (text: String)
        ensures
            text@ == "ruson.types.Decimal128(\""@ + hex_text(self.bytes@) + "\")"@,
    {
        let bytes = hex_string(self.bytes.as_slice());
        join3("ruson.types.Decimal128(\"", bytes.as_str(), "\")")
    }

    /// The text that the host shows for the value.
    pub fn __str__(&self) -> (text: String)
        ensures
            text@ == hex_text(self.bytes@),
    {
        hex_string(self.bytes.as_slice())
    }

    /// The sixteen raw bytes.
    pub fn get_bytes(&self) -> (bytes: [u8; 16])
        ensures
            bytes == self.bytes,
    {
        self.bytes
    }

    /// The sixteen bytes in hexadecimal.
    pub fn get_value(&self) -> (text: String)
        ensures
            text@ == hex_text(self.bytes@),
    {
        hex_string(self.bytes.as_slice())
    }
}

impl IndexOptions {
    /// The representation that the host shows for the value.
    pub fn __repr__(&self) -> (text: String)
        ensures
            text@ == "ruson.types.IndexOptions(...)"@,
    {
        "ruson.types.IndexOptions(...)".to_owned()
    }
}

impl IndexModel {
    /// The representation that the host shows for the value.
    pub fn __repr__(&self) -> (text: String)
        ensures
            text@ == "ruson.types.IndexModel(...)"@,
    {
        "ruson.types.IndexModel(...)".to_owned()
    }
}

impl DocumentIter {
    /// The pass itself: it is its own iterator.
    pub fn __iter__(self) -> (same: DocumentIter)
        ensures
            same == self,
    {
        self
    }

    /// The representation that the host shows for the value.
    pub fn __repr__(&self) -> (text: String)
        ensures
            text@ == "ruson.types.DocumentIter(index="@ + decimal_text(self.consumed()) + ", len="@
                + decimal_text(self.snapshot().len()) + ")"@,
    {
        let index = decimal_string(self.yielded() as u64);
        let len = decimal_string(self.__len__() as u64);
        join5("ruson.types.DocumentIter(index=", index.as_str(), ", len=", len.as_str(), ")")
    }
}

} // verus!
