//! The settings of the layout of a syntax tree, and the words that it
//! writes, stored once.
use vstd::prelude::*;
use crate::store::{interned, interned_symbol, Store, StoreSymbol};

verus! {

/// How a syntax tree is laid out.
#[derive(Debug, Copy, Clone, PartialEq, Eq, Structural)]
pub struct PrettyCSTConfig {
    pub indentation_deep: u16,
    pub leading_commas: bool,
    /// Trailing commas are always kept; when this is false none is added
    /// where there was none.
    pub add_trailing_separator: bool,
    /// Moves a documentation comment after an item to before it.
    pub move_documentantion_before_object: bool,
    pub indent_comment_blocks: bool,
    /// The distance between different sections of comments, unless they
    /// are compacted.
    pub separe_comments_by: u8,
    /// Merges comments into a single block, and documentation into another.
    pub compact_comments: bool,
}

impl Default for PrettyCSTConfig {
    fn default() -> (r: Self)
        ensures
            r == (PrettyCSTConfig {
                indentation_deep: 2,
                leading_commas: true,
                add_trailing_separator: false,
                move_documentantion_before_object: true,
                indent_comment_blocks: true,
                separe_comments_by: 1,
                compact_comments: true,
            }),
    {
        PrettyCSTConfig {
            indentation_deep: 2,
            leading_commas: true,
            add_trailing_separator: false,
            move_documentantion_before_object: true,
            indent_comment_blocks: true,
            separe_comments_by: 1,
            compact_comments: true,
        }
    }
}

/// A word stored in the store, with its width.
#[derive(Debug, Clone, Copy, PartialEq, Eq, Structural)]
pub struct CacheItem {
    pub symbol: StoreSymbol,
    pub len: usize,
}

/// The texts of `v2` begin with those of `v`.
pub open spec fn extends(v: Seq<Seq<char>>, v2: Seq<Seq<char>>) -> bool {
    v.len() <= v2.len() && forall|i: int| 0 <= i < v.len() ==> v2[i] == v[i]
}

/// Stores a word, and gives its symbol and its width in chars.
pub fn make_cache_item(name: &str, store: &mut Store) -> (r: CacheItem)
    ensures
        final(store).regular@ == interned(old(store).regular@, name@),
        r.symbol == StoreSymbol(interned_symbol(old(store).regular@, name@)),
        r.symbol.0 < final(store).regular@.len(),
        final(store).regular@[r.symbol.0 as int] == name@,
        r.len == name@.len(),
        extends(old(store).regular@, final(store).regular@),
        final(store).comments@ == old(store).comments@,
{
    let symbol = store.regular.unsafe_add(name);
    let len = name.unicode_len();
    CacheItem { symbol, len }
}

/// The words that a syntax tree writes, stored once: keywords, punctuation
/// and the names of the base types.
#[derive(Debug, Copy, Clone)]
pub struct PrettyCSTCache {
    pub import: CacheItem,
    pub unqualified: CacheItem,
    pub forall: CacheItem,
    pub case: CacheItem,
    pub of: CacheItem,
    pub _as: CacheItem,
    pub _let: CacheItem,
    pub _in: CacheItem,
    pub underscore: CacheItem,
    pub hypen: CacheItem,
    pub slash: CacheItem,
    pub lbrace: CacheItem,
    pub rbrace: CacheItem,
    pub lparen: CacheItem,
    pub rparen: CacheItem,
    pub lbracket: CacheItem,
    pub rbracket: CacheItem,
    pub comment_kind: CacheItem,
    pub interrogation: CacheItem,
    pub exclamation: CacheItem,
    pub hash: CacheItem,
    pub comma: CacheItem,
    pub colon: CacheItem,
    pub semicolon: CacheItem,
    pub dot: CacheItem,
    pub module_separator: CacheItem,
    pub composition_left: CacheItem,
    pub composition_right: CacheItem,
    pub plus: CacheItem,
    pub power: CacheItem,
    pub star: CacheItem,
    pub div: CacheItem,
    pub percentage: CacheItem,
    pub shift_left: CacheItem,
    pub shift_rigth: CacheItem,
    pub map: CacheItem,
    pub map_const_rigth: CacheItem,
    pub map_const_left: CacheItem,
    pub appliative: CacheItem,
    pub applicative_right: CacheItem,
    pub applicative_left: CacheItem,
    pub equality: CacheItem,
    pub not_equal: CacheItem,
    pub less_or_equal: CacheItem,
    pub more_or_equal: CacheItem,
    pub less_than: CacheItem,
    pub more_than: CacheItem,
    pub and: CacheItem,
    pub or: CacheItem,
    pub reverse_appliation: CacheItem,
    pub dollar_application: CacheItem,
    pub asignation: CacheItem,
    pub at: CacheItem,
    pub pipe: CacheItem,
    pub right_arrow: CacheItem,
    pub left_arrow: CacheItem,
    pub lambda_start: CacheItem,
    pub u8: CacheItem,
    pub u16: CacheItem,
    pub u32: CacheItem,
    pub u64: CacheItem,
    pub i8: CacheItem,
    pub i16: CacheItem,
    pub i32: CacheItem,
    pub i64: CacheItem,
    pub float32: CacheItem,
    pub float64: CacheItem,
    pub char: CacheItem,
    pub string: CacheItem,
}

/// The words of the cache, in the order of its fields.
pub open spec fn cache_names() -> Seq<Seq<char>> {
    seq![
        "import"@,
        "unqualified"@,
        "forall"@,
        "case"@,
        "of"@,
        "as"@,
        "let"@,
        "in"@,
        "_"@,
        "-"@,
        "/"@,
        "{"@,
        "}"@,
        "("@,
        ")"@,
        "["@,
        "]"@,
        " |"@,
        "?"@,
        "!"@,
        "#"@,
        ","@,
        ":"@,
        ";"@,
        "."@,
        "::"@,
        "<|"@,
        "|>"@,
        "+"@,
        "^"@,
        "*"@,
        "/"@,
        "%"@,
        "<<"@,
        ">>"@,
        "<$>"@,
        "$>"@,
        "<$"@,
        "<*>"@,
        "*>"@,
        "<*"@,
        "=="@,
        "!="@,
        "<="@,
        "=>"@,
        "<"@,
        ">"@,
        "&&"@,
        "||"@,
        "&"@,
        "$"@,
        "="@,
        "@"@,
        "|"@,
        "->"@,
        "<-"@,
        "\\"@,
        "U8"@,
        "U16"@,
        "U32"@,
        "U64"@,
        "I8"@,
        "I16"@,
        "I32"@,
        "I64"@,
        "F32"@,
        "F64"@,
        "Char"@,
        "String"@
    ]
}

/// The items of the cache, in the order of its fields.
pub open spec fn cache_items(c: PrettyCSTCache) -> Seq<CacheItem> {
    seq![
        c.import,
        c.unqualified,
        c.forall,
        c.case,
        c.of,
        c._as,
        c._let,
        c._in,
        c.underscore,
        c.hypen,
        c.slash,
        c.lbrace,
        c.rbrace,
        c.lparen,
        c.rparen,
        c.lbracket,
        c.rbracket,
        c.comment_kind,
        c.interrogation,
        c.exclamation,
        c.hash,
        c.comma,
        c.colon,
        c.semicolon,
        c.dot,
        c.module_separator,
        c.composition_left,
        c.composition_right,
        c.plus,
        c.power,
        c.star,
        c.div,
        c.percentage,
        c.shift_left,
        c.shift_rigth,
        c.map,
        c.map_const_rigth,
        c.map_const_left,
        c.appliative,
        c.applicative_right,
        c.applicative_left,
        c.equality,
        c.not_equal,
        c.less_or_equal,
        c.more_or_equal,
        c.less_than,
        c.more_than,
        c.and,
        c.or,
        c.reverse_appliation,
        c.dollar_application,
        c.asignation,
        c.at,
        c.pipe,
        c.right_arrow,
        c.left_arrow,
        c.lambda_start,
        c.u8,
        c.u16,
        c.u32,
        c.u64,
        c.i8,
        c.i16,
        c.i32,
        c.i64,
        c.float32,
        c.float64,
        c.char,
        c.string
    ]
}

/// Each item of the cache stands, in the texts `v`, for its word, with the
/// word's width.
pub open spec fn cache_resolves(c: PrettyCSTCache, v: Seq<Seq<char>>) -> bool {
    forall|k: int|
        0 <= k < 69 ==> (#[trigger] cache_items(c)[k]).symbol.0 < v.len() && v[cache_items(c)[k].symbol.0 as int]
            == cache_names()[k] && cache_items(c)[k].len == cache_names()[k].len()
}

impl PrettyCSTCache {
    /// Stores every word of the cache, in the order of its fields.
    pub fn new(store: &mut Store) -> (r: PrettyCSTCache)
        ensures
            extends(old(store).regular@, final(store).regular@),
            cache_resolves(r, final(store).regular@),
            final(store).comments@ == old(store).comments@,
    {
        let names: [&'static str; 69] = [
            "import",
            "unqualified",
            "forall",
            "case",
            "of",
            "as",
            "let",
            "in",
            "_",
            "-",
            "/",
            "{",
            "}",
            "(",
            ")",
            "[",
            "]",
            " |",
            "?",
            "!",
            "#",
            ",",
            ":",
            ";",
            ".",
            "::",
            "<|",
            "|>",
            "+",
            "^",
            "*",
            "/",
            "%",
            "<<",
            ">>",
            "<$>",
            "$>",
            "<$",
            "<*>",
            "*>",
            "<*",
            "==",
            "!=",
            "<=",
            "=>",
            "<",
            ">",
            "&&",
            "||",
            "&",
            "$",
            "=",
            "@",
            "|",
            "->",
            "<-",
            "\\",
            "U8",
            "U16",
            "U32",
            "U64",
            "I8",
            "I16",
            "I32",
            "I64",
            "F32",
            "F64",
            "Char",
            "String"
        ];
        let mut items: Vec<CacheItem> = Vec::new();
        let mut k: usize = 0;
        while k < 69
            invariant
                k <= 69,
                items@.len() == k,
                extends(old(store).regular@, store.regular@),
                store.comments@ == old(store).comments@,
                forall|j: int|
                    0 <= j < k ==> (#[trigger] items@[j]).symbol.0 < store.regular@.len()
                        && store.regular@[items@[j].symbol.0 as int] == names@[j]@
                        && items@[j].len == names@[j]@.len(),
            decreases 69 - k,
        {
            let item = make_cache_item(names[k], store);
            items.push(item);
            k = k + 1;
        }
        let r = PrettyCSTCache {
            import: items[0],
            unqualified: items[1],
            forall: items[2],
            case: items[3],
            of: items[4],
            _as: items[5],
            _let: items[6],
            _in: items[7],
            underscore: items[8],
            hypen: items[9],
            slash: items[10],
            lbrace: items[11],
            rbrace: items[12],
            lparen: items[13],
            rparen: items[14],
            lbracket: items[15],
            rbracket: items[16],
            comment_kind: items[17],
            interrogation: items[18],
            exclamation: items[19],
            hash: items[20],
            comma: items[21],
            colon: items[22],
            semicolon: items[23],
            dot: items[24],
            module_separator: items[25],
            composition_left: items[26],
            composition_right: items[27],
            plus: items[28],
            power: items[29],
            star: items[30],
            div: items[31],
            percentage: items[32],
            shift_left: items[33],
            shift_rigth: items[34],
            map: items[35],
            map_const_rigth: items[36],
            map_const_left: items[37],
            appliative: items[38],
            applicative_right: items[39],
            applicative_left: items[40],
            equality: items[41],
            not_equal: items[42],
            less_or_equal: items[43],
            more_or_equal: items[44],
            less_than: items[45],
            more_than: items[46],
            and: items[47],
            or: items[48],
            reverse_appliation: items[49],
            dollar_application: items[50],
            asignation: items[51],
            at: items[52],
            pipe: items[53],
            right_arrow: items[54],
            left_arrow: items[55],
            lambda_start: items[56],
            u8: items[57],
            u16: items[58],
            u32: items[59],
            u64: items[60],
            i8: items[61],
            i16: items[62],
            i32: items[63],
            i64: items[64],
            float32: items[65],
            float64: items[66],
            char: items[67],
            string: items[68]
        };
        proof {
            assert(cache_items(r) =~= items@);
            assert forall|j: int| 0 <= j < 69 implies cache_names()[j] == names@[j]@ by {}
        }
        r
    }
}

/// The settings of the layout and the stored words.
#[derive(Debug, Copy, Clone)]
pub struct PrettyCSTContext {
    pub configuration: PrettyCSTConfig,
    pub cache: PrettyCSTCache,
}

impl PrettyCSTContext {
    /// A context with these settings and words.
    pub fn new(configuration: PrettyCSTConfig, cache: PrettyCSTCache) -> (r: PrettyCSTContext)
        ensures
            r.configuration == configuration,
            r.cache == cache,
    {
        PrettyCSTContext { configuration, cache }
    }
}

} // verus!
