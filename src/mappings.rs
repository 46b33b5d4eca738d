//! The dictionary of attribute names that have a prop name of their own.
use vstd::prelude::*;
use crate::attr_name::pairs_view;

verus! {

/// Lower-cased markup attribute names and the prop names they map to.
pub open spec fn attr_mappings() -> Seq<(Seq<char>, Seq<char>)> {
    seq![
        ("accept-charset"@, "acceptCharset"@),
        ("acceptcharset"@, "acceptCharset"@),
        ("accesskey"@, "accessKey"@),
        ("allowfullscreen"@, "allowFullScreen"@),
        ("autocomplete"@, "autoComplete"@),
        ("autofocus"@, "autoFocus"@),
        ("autoplay"@, "autoPlay"@),
        ("cellpadding"@, "cellPadding"@),
        ("cellspacing"@, "cellSpacing"@),
        ("charset"@, "charSet"@),
        ("class"@, "className"@),
        ("classname"@, "className"@),
        ("colspan"@, "colSpan"@),
        ("contenteditable"@, "contentEditable"@),
        ("contextmenu"@, "contextMenu"@),
        ("crossorigin"@, "crossOrigin"@),
        ("datetime"@, "dateTime"@),
        ("enctype"@, "encType"@),
        ("for"@, "htmlFor"@),
        ("formaction"@, "formAction"@),
        ("frameborder"@, "frameBorder"@),
        ("hreflang"@, "hrefLang"@),
        ("htmlfor"@, "htmlFor"@),
        ("http-equiv"@, "httpEquiv"@),
        ("inputmode"@, "inputMode"@),
        ("marginheight"@, "marginHeight"@),
        ("marginwidth"@, "marginWidth"@),
        ("maxlength"@, "maxLength"@),
        ("minlength"@, "minLength"@),
        ("novalidate"@, "noValidate"@),
        ("readonly"@, "readOnly"@),
        ("rowspan"@, "rowSpan"@),
        ("spellcheck"@, "spellCheck"@),
        ("srcdoc"@, "srcDoc"@),
        ("srclang"@, "srcLang"@),
        ("srcset"@, "srcSet"@),
        ("tabindex"@, "tabIndex"@),
        ("usemap"@, "useMap"@),
        ("accent-height"@, "accentHeight"@),
        ("alignment-baseline"@, "alignmentBaseline"@),
        ("allowreorder"@, "allowReorder"@),
        ("arabic-form"@, "arabicForm"@),
        ("attributename"@, "attributeName"@),
        ("attributetype"@, "attributeType"@),
        ("autoreverse"@, "autoReverse"@),
        ("basefrequency"@, "baseFrequency"@),
        ("baseline-shift"@, "baselineShift"@),
        ("baseprofile"@, "baseProfile"@),
        ("calcmode"@, "calcMode"@),
        ("cap-height"@, "capHeight"@),
        ("clip-path"@, "clipPath"@),
        ("clippathunits"@, "clipPathUnits"@),
        ("clip-rule"@, "clipRule"@),
        ("color-interpolation"@, "colorInterpolation"@),
        ("color-interpolation-filters"@, "colorInterpolationFilters"@),
        ("color-profile"@, "colorProfile"@),
        ("color-rendering"@, "colorRendering"@),
        ("contentscripttype"@, "contentScriptType"@),
        ("contentstyletype"@, "contentStyleType"@),
        ("diffuseconstant"@, "diffuseConstant"@),
        ("dominant-baseline"@, "dominantBaseline"@),
        ("edgemode"@, "edgeMode"@),
        ("enable-background"@, "enableBackground"@),
        ("externalresourcesrequired"@, "externalResourcesRequired"@),
        ("fill-opacity"@, "fillOpacity"@),
        ("fill-rule"@, "fillRule"@),
        ("filterres"@, "filterRes"@),
        ("filterunits"@, "filterUnits"@),
        ("flood-color"@, "floodColor"@),
        ("flood-opacity"@, "floodOpacity"@),
        ("font-family"@, "fontFamily"@),
        ("font-size"@, "fontSize"@),
        ("font-size-adjust"@, "fontSizeAdjust"@),
        ("font-stretch"@, "fontStretch"@),
        ("font-style"@, "fontStyle"@),
        ("font-variant"@, "fontVariant"@),
        ("font-weight"@, "fontWeight"@),
        ("glyph-name"@, "glyphName"@),
        ("glyph-orientation-horizontal"@, "glyphOrientationHorizontal"@),
        ("glyph-orientation-vertical"@, "glyphOrientationVertical"@),
        ("glyphref"@, "glyphRef"@),
        ("gradienttransform"@, "gradientTransform"@),
        ("gradientunits"@, "gradientUnits"@),
        ("horiz-adv-x"@, "horizAdvX"@),
        ("horiz-origin-x"@, "horizOriginX"@),
        ("image-rendering"@, "imageRendering"@),
        ("kernelmatrix"@, "kernelMatrix"@),
        ("kernelunitlength"@, "kernelUnitLength"@),
        ("keypoints"@, "keyPoints"@),
        ("keysplines"@, "keySplines"@),
        ("keytimes"@, "keyTimes"@),
        ("lengthadjust"@, "lengthAdjust"@),
        ("letter-spacing"@, "letterSpacing"@),
        ("lighting-color"@, "lightingColor"@),
        ("limitingconeangle"@, "limitingConeAngle"@),
        ("markerheight"@, "markerHeight"@),
        ("marker-end"@, "markerEnd"@),
        ("marker-mid"@, "markerMid"@),
        ("marker-start"@, "markerStart"@),
        ("markerunits"@, "markerUnits"@),
        ("markerwidth"@, "markerWidth"@),
        ("maskcontentunits"@, "maskContentUnits"@),
        ("maskunits"@, "maskUnits"@),
        ("numoctaves"@, "numOctaves"@),
        ("overline-position"@, "overlinePosition"@),
        ("overline-thickness"@, "overlineThickness"@),
        ("paint-order"@, "paintOrder"@),
        ("pathlength"@, "pathLength"@),
        ("patterncontentunits"@, "patternContentUnits"@),
        ("patterntransform"@, "patternTransform"@),
        ("patternunits"@, "patternUnits"@),
        ("pointer-events"@, "pointerEvents"@),
        ("pointsatx"@, "pointsAtX"@),
        ("pointsaty"@, "pointsAtY"@),
        ("pointsatz"@, "pointsAtZ"@),
        ("preservealpha"@, "preserveAlpha"@),
        ("preserveaspectratio"@, "preserveAspectRatio"@),
        ("primitiveunits"@, "primitiveUnits"@),
        ("refx"@, "refX"@),
        ("refy"@, "refY"@),
        ("rendering-intent"@, "renderingIntent"@),
        ("repeatcount"@, "repeatCount"@),
        ("repeatdur"@, "repeatDur"@),
        ("requiredextensions"@, "requiredExtensions"@),
        ("requiredfeatures"@, "requiredFeatures"@),
        ("shape-rendering"@, "shapeRendering"@),
        ("specularconstant"@, "specularConstant"@),
        ("specularexponent"@, "specularExponent"@),
        ("spreadmethod"@, "spreadMethod"@),
        ("startoffset"@, "startOffset"@),
        ("stddeviation"@, "stdDeviation"@),
        ("stitchtiles"@, "stitchTiles"@),
        ("stop-color"@, "stopColor"@),
        ("stop-opacity"@, "stopOpacity"@),
        ("strikethrough-position"@, "strikethroughPosition"@),
        ("strikethrough-thickness"@, "strikethroughThickness"@),
        ("stroke-dasharray"@, "strokeDasharray"@),
        ("stroke-dashoffset"@, "strokeDashoffset"@),
        ("stroke-linecap"@, "strokeLinecap"@),
        ("stroke-linejoin"@, "strokeLinejoin"@),
        ("stroke-miterlimit"@, "strokeMiterlimit"@),
        ("stroke-opacity"@, "strokeOpacity"@),
        ("stroke-width"@, "strokeWidth"@),
        ("surfacescale"@, "surfaceScale"@),
        ("systemlanguage"@, "systemLanguage"@),
        ("tablevalues"@, "tableValues"@),
        ("targetx"@, "targetX"@),
        ("targety"@, "targetY"@),
        ("text-anchor"@, "textAnchor"@),
        ("text-decoration"@, "textDecoration"@),
        ("textlength"@, "textLength"@),
        ("text-rendering"@, "textRendering"@),
        ("underline-position"@, "underlinePosition"@),
        ("underline-thickness"@, "underlineThickness"@),
        ("unicode-bidi"@, "unicodeBidi"@),
        ("unicode-range"@, "unicodeRange"@),
        ("units-per-em"@, "unitsPerEm"@),
        ("v-alphabetic"@, "vAlphabetic"@),
        ("vector-effect"@, "vectorEffect"@),
        ("vert-adv-y"@, "vertAdvY"@),
        ("vert-origin-x"@, "vertOriginX"@),
        ("vert-origin-y"@, "vertOriginY"@),
        ("v-hanging"@, "vHanging"@),
        ("v-ideographic"@, "vIdeographic"@),
        ("viewbox"@, "viewBox"@),
        ("viewtarget"@, "viewTarget"@),
        ("v-mathematical"@, "vMathematical"@),
        ("word-spacing"@, "wordSpacing"@),
        ("writing-mode"@, "writingMode"@),
        ("xchannelselector"@, "xChannelSelector"@),
        ("x-height"@, "xHeight"@),
        ("xlink:actuate"@, "xlinkActuate"@),
        ("xlink:arcrole"@, "xlinkArcrole"@),
        ("xlink:href"@, "xlinkHref"@),
        ("xlink:role"@, "xlinkRole"@),
        ("xlink:show"@, "xlinkShow"@),
        ("xlink:title"@, "xlinkTitle"@),
        ("xlink:type"@, "xlinkType"@),
        ("xml:base"@, "xmlBase"@),
        ("xml:lang"@, "xmlLang"@),
        ("xml:space"@, "xmlSpace"@),
        ("xmlns:xlink"@, "xmlnsXlink"@),
        ("ychannelselector"@, "yChannelSelector"@),
        ("zoomandpan"@, "zoomAndPan"@),
    ]
}

fn entry(k: &str, v: &str) -> (r: (String, String))
    ensures
        r.0@ == k@,
        r.1@ == v@,
{
    (String::from_str(k), String::from_str(v))
}

/// The dictionary as owned strings.
#[verifier::rlimit(100)]
pub fn create_attr_mappings() -> (r: Vec<(String, String)>)
    ensures
        pairs_view(r@) == attr_mappings(),
{
    let v = vec![
        entry("accept-charset", "acceptCharset"),
        entry("acceptcharset", "acceptCharset"),
        entry("accesskey", "accessKey"),
        entry("allowfullscreen", "allowFullScreen"),
        entry("autocomplete", "autoComplete"),
        entry("autofocus", "autoFocus"),
        entry("autoplay", "autoPlay"),
        entry("cellpadding", "cellPadding"),
        entry("cellspacing", "cellSpacing"),
        entry("charset", "charSet"),
        entry("class", "className"),
        entry("classname", "className"),
        entry("colspan", "colSpan"),
        entry("contenteditable", "contentEditable"),
        entry("contextmenu", "contextMenu"),
        entry("crossorigin", "crossOrigin"),
        entry("datetime", "dateTime"),
        entry("enctype", "encType"),
        entry("for", "htmlFor"),
        entry("formaction", "formAction"),
        entry("frameborder", "frameBorder"),
        entry("hreflang", "hrefLang"),
        entry("htmlfor", "htmlFor"),
        entry("http-equiv", "httpEquiv"),
        entry("inputmode", "inputMode"),
        entry("marginheight", "marginHeight"),
        entry("marginwidth", "marginWidth"),
        entry("maxlength", "maxLength"),
        entry("minlength", "minLength"),
        entry("novalidate", "noValidate"),
        entry("readonly", "readOnly"),
        entry("rowspan", "rowSpan"),
        entry("spellcheck", "spellCheck"),
        entry("srcdoc", "srcDoc"),
        entry("srclang", "srcLang"),
        entry("srcset", "srcSet"),
        entry("tabindex", "tabIndex"),
        entry("usemap", "useMap"),
        entry("accent-height", "accentHeight"),
        entry("alignment-baseline", "alignmentBaseline"),
        entry("allowreorder", "allowReorder"),
        entry("arabic-form", "arabicForm"),
        entry("attributename", "attributeName"),
        entry("attributetype", "attributeType"),
        entry("autoreverse", "autoReverse"),
        entry("basefrequency", "baseFrequency"),
        entry("baseline-shift", "baselineShift"),
        entry("baseprofile", "baseProfile"),
        entry("calcmode", "calcMode"),
        entry("cap-height", "capHeight"),
        entry("clip-path", "clipPath"),
        entry("clippathunits", "clipPathUnits"),
        entry("clip-rule", "clipRule"),
        entry("color-interpolation", "colorInterpolation"),
        entry("color-interpolation-filters", "colorInterpolationFilters"),
        entry("color-profile", "colorProfile"),
        entry("color-rendering", "colorRendering"),
        entry("contentscripttype", "contentScriptType"),
        entry("contentstyletype", "contentStyleType"),
        entry("diffuseconstant", "diffuseConstant"),
        entry("dominant-baseline", "dominantBaseline"),
        entry("edgemode", "edgeMode"),
        entry("enable-background", "enableBackground"),
        entry("externalresourcesrequired", "externalResourcesRequired"),
        entry("fill-opacity", "fillOpacity"),
        entry("fill-rule", "fillRule"),
        entry("filterres", "filterRes"),
        entry("filterunits", "filterUnits"),
        entry("flood-color", "floodColor"),
        entry("flood-opacity", "floodOpacity"),
        entry("font-family", "fontFamily"),
        entry("font-size", "fontSize"),
        entry("font-size-adjust", "fontSizeAdjust"),
        entry("font-stretch", "fontStretch"),
        entry("font-style", "fontStyle"),
        entry("font-variant", "fontVariant"),
        entry("font-weight", "fontWeight"),
        entry("glyph-name", "glyphName"),
        entry("glyph-orientation-horizontal", "glyphOrientationHorizontal"),
        entry("glyph-orientation-vertical", "glyphOrientationVertical"),
        entry("glyphref", "glyphRef"),
        entry("gradienttransform", "gradientTransform"),
        entry("gradientunits", "gradientUnits"),
        entry("horiz-adv-x", "horizAdvX"),
        entry("horiz-origin-x", "horizOriginX"),
        entry("image-rendering", "imageRendering"),
        entry("kernelmatrix", "kernelMatrix"),
        entry("kernelunitlength", "kernelUnitLength"),
        entry("keypoints", "keyPoints"),
        entry("keysplines", "keySplines"),
        entry("keytimes", "keyTimes"),
        entry("lengthadjust", "lengthAdjust"),
        entry("letter-spacing", "letterSpacing"),
        entry("lighting-color", "lightingColor"),
        entry("limitingconeangle", "limitingConeAngle"),
        entry("markerheight", "markerHeight"),
        entry("marker-end", "markerEnd"),
        entry("marker-mid", "markerMid"),
        entry("marker-start", "markerStart"),
        entry("markerunits", "markerUnits"),
        entry("markerwidth", "markerWidth"),
        entry("maskcontentunits", "maskContentUnits"),
        entry("maskunits", "maskUnits"),
        entry("numoctaves", "numOctaves"),
        entry("overline-position", "overlinePosition"),
        entry("overline-thickness", "overlineThickness"),
        entry("paint-order", "paintOrder"),
        entry("pathlength", "pathLength"),
        entry("patterncontentunits", "patternContentUnits"),
        entry("patterntransform", "patternTransform"),
        entry("patternunits", "patternUnits"),
        entry("pointer-events", "pointerEvents"),
        entry("pointsatx", "pointsAtX"),
        entry("pointsaty", "pointsAtY"),
        entry("pointsatz", "pointsAtZ"),
        entry("preservealpha", "preserveAlpha"),
        entry("preserveaspectratio", "preserveAspectRatio"),
        entry("primitiveunits", "primitiveUnits"),
        entry("refx", "refX"),
        entry("refy", "refY"),
        entry("rendering-intent", "renderingIntent"),
        entry("repeatcount", "repeatCount"),
        entry("repeatdur", "repeatDur"),
        entry("requiredextensions", "requiredExtensions"),
        entry("requiredfeatures", "requiredFeatures"),
        entry("shape-rendering", "shapeRendering"),
        entry("specularconstant", "specularConstant"),
        entry("specularexponent", "specularExponent"),
        entry("spreadmethod", "spreadMethod"),
        entry("startoffset", "startOffset"),
        entry("stddeviation", "stdDeviation"),
        entry("stitchtiles", "stitchTiles"),
        entry("stop-color", "stopColor"),
        entry("stop-opacity", "stopOpacity"),
        entry("strikethrough-position", "strikethroughPosition"),
        entry("strikethrough-thickness", "strikethroughThickness"),
        entry("stroke-dasharray", "strokeDasharray"),
        entry("stroke-dashoffset", "strokeDashoffset"),
        entry("stroke-linecap", "strokeLinecap"),
        entry("stroke-linejoin", "strokeLinejoin"),
        entry("stroke-miterlimit", "strokeMiterlimit"),
        entry("stroke-opacity", "strokeOpacity"),
        entry("stroke-width", "strokeWidth"),
        entry("surfacescale", "surfaceScale"),
        entry("systemlanguage", "systemLanguage"),
        entry("tablevalues", "tableValues"),
        entry("targetx", "targetX"),
        entry("targety", "targetY"),
        entry("text-anchor", "textAnchor"),
        entry("text-decoration", "textDecoration"),
        entry("textlength", "textLength"),
        entry("text-rendering", "textRendering"),
        entry("underline-position", "underlinePosition"),
        entry("underline-thickness", "underlineThickness"),
        entry("unicode-bidi", "unicodeBidi"),
        entry("unicode-range", "unicodeRange"),
        entry("units-per-em", "unitsPerEm"),
        entry("v-alphabetic", "vAlphabetic"),
        entry("vector-effect", "vectorEffect"),
        entry("vert-adv-y", "vertAdvY"),
        entry("vert-origin-x", "vertOriginX"),
        entry("vert-origin-y", "vertOriginY"),
        entry("v-hanging", "vHanging"),
        entry("v-ideographic", "vIdeographic"),
        entry("viewbox", "viewBox"),
        entry("viewtarget", "viewTarget"),
        entry("v-mathematical", "vMathematical"),
        entry("word-spacing", "wordSpacing"),
        entry("writing-mode", "writingMode"),
        entry("xchannelselector", "xChannelSelector"),
        entry("x-height", "xHeight"),
        entry("xlink:actuate", "xlinkActuate"),
        entry("xlink:arcrole", "xlinkArcrole"),
        entry("xlink:href", "xlinkHref"),
        entry("xlink:role", "xlinkRole"),
        entry("xlink:show", "xlinkShow"),
        entry("xlink:title", "xlinkTitle"),
        entry("xlink:type", "xlinkType"),
        entry("xml:base", "xmlBase"),
        entry("xml:lang", "xmlLang"),
        entry("xml:space", "xmlSpace"),
        entry("xmlns:xlink", "xmlnsXlink"),
        entry("ychannelselector", "yChannelSelector"),
        entry("zoomandpan", "zoomAndPan"),
    ];
    assert(pairs_view(v@) =~= attr_mappings());
    v
}

} // verus!
