use crate::text::{chars_of, lowercase, push_str, str_eq, string_of, to_lowercase, trim, trim_exec};
use capitalize::Capitalize;
use vstd::prelude::*;

verus! {

/// The long names of bosses and activities, as RuneLite knows them, by the short names players
/// type (in lower case).
pub open spec fn boss_aliases() -> Seq<(&'static str, &'static str)> {
    seq![
        ("corp", "Corporeal Beast"),
        ("jad", "TzTok-Jad"),
        ("tzhaar fight cave", "TzTok-Jad"),
        ("kq", "Kalphite Queen"),
        ("chaos ele", "Chaos Elemental"),
        ("dusk", "Grotesque Guardians"),
        ("dawn", "Grotesque Guardians"),
        ("gargs", "Grotesque Guardians"),
        ("ggs", "Grotesque Guardians"),
        ("gg", "Grotesque Guardians"),
        ("crazy arch", "Crazy Archaeologist"),
        ("deranged arch", "Deranged Archaeologist"),
        ("mole", "Giant Mole"),
        ("vetion", "Vet'ion"),
        ("calvarion", "Calvar'ion"),
        ("calv", "Calvar'ion"),
        ("vene", "Venenatis"),
        ("kbd", "King Black Dragon"),
        ("vork", "Vorkath"),
        ("sire", "Abyssal Sire"),
        ("smoke devil", "Thermonuclear Smoke Devil"),
        ("thermy", "Thermonuclear Smoke Devil"),
        ("cerb", "Cerberus"),
        ("zuk", "TzKal-Zuk"),
        ("inferno", "TzKal-Zuk"),
        ("hydra", "Alchemical Hydra"),
        ("sara", "Commander Zilyana"),
        ("saradomin", "Commander Zilyana"),
        ("zilyana", "Commander Zilyana"),
        ("zily", "Commander Zilyana"),
        ("zammy", "K'ril Tsutsaroth"),
        ("zamorak", "K'ril Tsutsaroth"),
        ("kril", "K'ril Tsutsaroth"),
        ("kril tsutsaroth", "K'ril Tsutsaroth"),
        ("arma", "Kree'arra"),
        ("kree", "Kree'arra"),
        ("kreearra", "Kree'arra"),
        ("armadyl", "Kree'arra"),
        ("bando", "General Graardor"),
        ("bandos", "General Graardor"),
        ("graardor", "General Graardor"),
        ("supreme", "Dagannoth Supreme"),
        ("rex", "Dagannoth Rex"),
        ("prime", "Dagannoth Prime"),
        ("wt", "Wintertodt"),
        ("barrows", "Barrows Chests"),
        ("herbi", "Herbiboar"),
        ("cox", "Chambers of Xeric"),
        ("xeric", "Chambers of Xeric"),
        ("chambers", "Chambers of Xeric"),
        ("olm", "Chambers of Xeric"),
        ("raids", "Chambers of Xeric"),
        ("cox 1", "Chambers of Xeric Solo"),
        ("cox solo", "Chambers of Xeric Solo"),
        ("cox 2", "Chambers of Xeric 2 players"),
        ("cox duo", "Chambers of Xeric 2 players"),
        ("cox 3", "Chambers of Xeric 3 players"),
        ("cox 4", "Chambers of Xeric 4 players"),
        ("cox 5", "Chambers of Xeric 5 players"),
        ("cox 6", "Chambers of Xeric 6 players"),
        ("cox 7", "Chambers of Xeric 7 players"),
        ("cox 8", "Chambers of Xeric 8 players"),
        ("cox 9", "Chambers of Xeric 9 players"),
        ("cox 10", "Chambers of Xeric 10 players"),
        ("cox 11-15", "Chambers of Xeric 11-15 players"),
        ("cox 11", "Chambers of Xeric 11-15 players"),
        ("cox 12", "Chambers of Xeric 11-15 players"),
        ("cox 13", "Chambers of Xeric 11-15 players"),
        ("cox 14", "Chambers of Xeric 11-15 players"),
        ("cox 15", "Chambers of Xeric 11-15 players"),
        ("cox 16-23", "Chambers of Xeric 16-23 players"),
        ("cox 16", "Chambers of Xeric 16-23 players"),
        ("cox 17", "Chambers of Xeric 16-23 players"),
        ("cox 18", "Chambers of Xeric 16-23 players"),
        ("cox 19", "Chambers of Xeric 16-23 players"),
        ("cox 20", "Chambers of Xeric 16-23 players"),
        ("cox 21", "Chambers of Xeric 16-23 players"),
        ("cox 22", "Chambers of Xeric 16-23 players"),
        ("cox 23", "Chambers of Xeric 16-23 players"),
        ("cox 24", "Chambers of Xeric 24+ players"),
        ("cox 24+", "Chambers of Xeric 24+ players"),
        ("chambers of xeric| challenge mode", "Chambers of Xeric Challenge Mode"),
        ("cox cm", "Chambers of Xeric Challenge Mode"),
        ("xeric cm", "Chambers of Xeric Challenge Mode"),
        ("chambers cm", "Chambers of Xeric Challenge Mode"),
        ("olm cm", "Chambers of Xeric Challenge Mode"),
        ("raids cm", "Chambers of Xeric Challenge Mode"),
        ("chambers of xeric - challenge mode", "Chambers of Xeric Challenge Mode"),
        ("cox cm 1", "Chambers of Xeric Challenge Mode Solo"),
        ("cox cm solo", "Chambers of Xeric Challenge Mode Solo"),
        ("cox cm 2", "Chambers of Xeric Challenge Mode 2 players"),
        ("cox cm duo", "Chambers of Xeric Challenge Mode 2 players"),
        ("cox cm 3", "Chambers of Xeric Challenge Mode 3 players"),
        ("cox cm 4", "Chambers of Xeric Challenge Mode 4 players"),
        ("cox cm 5", "Chambers of Xeric Challenge Mode 5 players"),
        ("cox cm 6", "Chambers of Xeric Challenge Mode 6 players"),
        ("cox cm 7", "Chambers of Xeric Challenge Mode 7 players"),
        ("cox cm 8", "Chambers of Xeric Challenge Mode 8 players"),
        ("cox cm 9", "Chambers of Xeric Challenge Mode 9 players"),
        ("cox cm 10", "Chambers of Xeric Challenge Mode 10 players"),
        ("cox cm 11-15", "Chambers of Xeric Challenge Mode 11-15 players"),
        ("cox cm 11", "Chambers of Xeric Challenge Mode 11-15 players"),
        ("cox cm 12", "Chambers of Xeric Challenge Mode 11-15 players"),
        ("cox cm 13", "Chambers of Xeric Challenge Mode 11-15 players"),
        ("cox cm 14", "Chambers of Xeric Challenge Mode 11-15 players"),
        ("cox cm 15", "Chambers of Xeric Challenge Mode 11-15 players"),
        ("cox cm 16-23", "Chambers of Xeric Challenge Mode 16-23 players"),
        ("cox cm 16", "Chambers of Xeric Challenge Mode 16-23 players"),
        ("cox cm 17", "Chambers of Xeric Challenge Mode 16-23 players"),
        ("cox cm 18", "Chambers of Xeric Challenge Mode 16-23 players"),
        ("cox cm 19", "Chambers of Xeric Challenge Mode 16-23 players"),
        ("cox cm 20", "Chambers of Xeric Challenge Mode 16-23 players"),
        ("cox cm 21", "Chambers of Xeric Challenge Mode 16-23 players"),
        ("cox cm 22", "Chambers of Xeric Challenge Mode 16-23 players"),
        ("cox cm 23", "Chambers of Xeric Challenge Mode 16-23 players"),
        ("cox cm 24", "Chambers of Xeric Challenge Mode 24+ players"),
        ("cox cm 24+", "Chambers of Xeric Challenge Mode 24+ players"),
        ("tob", "Theatre of Blood"),
        ("theatre", "Theatre of Blood"),
        ("verzik", "Theatre of Blood"),
        ("verzik vitur", "Theatre of Blood"),
        ("raids 2", "Theatre of Blood"),
        ("tob 1", "Theatre of Blood Solo"),
        ("tob solo", "Theatre of Blood Solo"),
        ("tob 2", "Theatre of Blood 2 players"),
        ("tob duo", "Theatre of Blood 2 players"),
        ("tob 3", "Theatre of Blood 3 players"),
        ("tob 4", "Theatre of Blood 4 players"),
        ("tob 5", "Theatre of Blood 5 players"),
        ("theatre of blood| story mode", "Theatre of Blood Entry Mode"),
        ("tob sm", "Theatre of Blood Entry Mode"),
        ("tob story mode", "Theatre of Blood Entry Mode"),
        ("tob story", "Theatre of Blood Entry Mode"),
        ("theatre of blood| entry mode", "Theatre of Blood Entry Mode"),
        ("tob em", "Theatre of Blood Entry Mode"),
        ("tob entry mode", "Theatre of Blood Entry Mode"),
        ("tob entry", "Theatre of Blood Entry Mode"),
        ("theatre of blood| hard mode", "Theatre of Blood Hard Mode"),
        ("tob cm", "Theatre of Blood Hard Mode"),
        ("tob hm", "Theatre of Blood Hard Mode"),
        ("tob hard mode", "Theatre of Blood Hard Mode"),
        ("tob hard", "Theatre of Blood Hard Mode"),
        ("hmt", "Theatre of Blood Hard Mode"),
        ("hmt 1", "Theatre of Blood Hard Mode Solo"),
        ("hmt solo", "Theatre of Blood Hard Mode Solo"),
        ("hmt 2", "Theatre of Blood Hard Mode 2 players"),
        ("hmt duo", "Theatre of Blood Hard Mode 2 players"),
        ("hmt 3", "Theatre of Blood Hard Mode 3 players"),
        ("hmt 4", "Theatre of Blood Hard Mode 4 players"),
        ("hmt 5", "Theatre of Blood Hard Mode 5 players"),
        ("toa", "Tombs of Amascut"),
        ("tombs", "Tombs of Amascut"),
        ("amascut", "Tombs of Amascut"),
        ("warden", "Tombs of Amascut"),
        ("wardens", "Tombs of Amascut"),
        ("raids 3", "Tombs of Amascut"),
        ("toa 1", "Tombs of Amascut Solo"),
        ("toa solo", "Tombs of Amascut Solo"),
        ("toa 2", "Tombs of Amascut 2 players"),
        ("toa duo", "Tombs of Amascut 2 players"),
        ("toa 3", "Tombs of Amascut 3 players"),
        ("toa 4", "Tombs of Amascut 4 players"),
        ("toa 5", "Tombs of Amascut 5 players"),
        ("toa 6", "Tombs of Amascut 6 players"),
        ("toa 7", "Tombs of Amascut 7 players"),
        ("toa 8", "Tombs of Amascut 8 players"),
        ("toa entry", "Tombs of Amascut Entry Mode"),
        ("tombs of amascut - entry", "Tombs of Amascut Entry Mode"),
        ("toa entry mode", "Tombs of Amascut Entry Mode"),
        ("toa entry 1", "Tombs of Amascut Entry Mode Solo"),
        ("toa entry solo", "Tombs of Amascut Entry Mode Solo"),
        ("toa entry 2", "Tombs of Amascut Entry Mode 2 players"),
        ("toa entry duo", "Tombs of Amascut Entry Mode 2 players"),
        ("toa entry 3", "Tombs of Amascut Entry Mode 3 players"),
        ("toa entry 4", "Tombs of Amascut Entry Mode 4 players"),
        ("toa entry 5", "Tombs of Amascut Entry Mode 5 players"),
        ("toa entry 6", "Tombs of Amascut Entry Mode 6 players"),
        ("toa entry 7", "Tombs of Amascut Entry Mode 7 players"),
        ("toa entry 8", "Tombs of Amascut Entry Mode 8 players"),
        ("tombs of amascut| expert mode", "Tombs of Amascut Expert Mode"),
        ("toa expert", "Tombs of Amascut Expert Mode"),
        ("tombs of amascut - expert", "Tombs of Amascut Expert Mode"),
        ("toa expert mode", "Tombs of Amascut Expert Mode"),
        ("toa expert 1", "Tombs of Amascut Expert Mode Solo"),
        ("toa expert solo", "Tombs of Amascut Expert Mode Solo"),
        ("toa expert 2", "Tombs of Amascut Expert Mode 2 players"),
        ("toa expert duo", "Tombs of Amascut Expert Mode 2 players"),
        ("toa expert 3", "Tombs of Amascut Expert Mode 3 players"),
        ("toa expert 4", "Tombs of Amascut Expert Mode 4 players"),
        ("toa expert 5", "Tombs of Amascut Expert Mode 5 players"),
        ("toa expert 6", "Tombs of Amascut Expert Mode 6 players"),
        ("toa expert 7", "Tombs of Amascut Expert Mode 7 players"),
        ("toa expert 8", "Tombs of Amascut Expert Mode 8 players"),
        ("gaunt", "Gauntlet"),
        ("gauntlet", "Gauntlet"),
        ("the gauntlet", "Gauntlet"),
        ("cgaunt", "Corrupted Gauntlet"),
        ("cgauntlet", "Corrupted Gauntlet"),
        ("the corrupted gauntlet", "Corrupted Gauntlet"),
        ("cg", "Corrupted Gauntlet"),
        ("nm", "Nightmare"),
        ("tnm", "Nightmare"),
        ("nmare", "Nightmare"),
        ("the nightmare", "Nightmare"),
        ("pnm", "Phosani's Nightmare"),
        ("phosani", "Phosani's Nightmare"),
        ("phosanis", "Phosani's Nightmare"),
        ("phosani nm", "Phosani's Nightmare"),
        ("phosani nightmare", "Phosani's Nightmare"),
        ("phosanis nightmare", "Phosani's Nightmare"),
        ("hs", "Hallowed Sepulchre"),
        ("sepulchre", "Hallowed Sepulchre"),
        ("ghc", "Hallowed Sepulchre"),
        ("hs1", "Hallowed Sepulchre Floor 1"),
        ("hs 1", "Hallowed Sepulchre Floor 1"),
        ("hs2", "Hallowed Sepulchre Floor 2"),
        ("hs 2", "Hallowed Sepulchre Floor 2"),
        ("hs3", "Hallowed Sepulchre Floor 3"),
        ("hs 3", "Hallowed Sepulchre Floor 3"),
        ("hs4", "Hallowed Sepulchre Floor 4"),
        ("hs 4", "Hallowed Sepulchre Floor 4"),
        ("hs5", "Hallowed Sepulchre Floor 5"),
        ("hs 5", "Hallowed Sepulchre Floor 5"),
        ("prif", "Prifddinas Agility Course"),
        ("prifddinas", "Prifddinas Agility Course"),
        ("shayb", "Shayzien Basic Agility Course"),
        ("sbac", "Shayzien Basic Agility Course"),
        ("shayzienbasic", "Shayzien Basic Agility Course"),
        ("shayzien basic", "Shayzien Basic Agility Course"),
        ("shaya", "Shayzien Advanced Agility Course"),
        ("saac", "Shayzien Advanced Agility Course"),
        ("shayadv", "Shayzien Advanced Agility Course"),
        ("shayadvanced", "Shayzien Advanced Agility Course"),
        ("shayzien advanced", "Shayzien Advanced Agility Course"),
        ("aa", "Ape Atoll Agility"),
        ("ape atoll", "Ape Atoll Agility"),
        ("draynor", "Draynor Village Rooftop"),
        ("draynor agility", "Draynor Village Rooftop"),
        ("al kharid", "Al Kharid Rooftop"),
        ("al kharid agility", "Al Kharid Rooftop"),
        ("al-kharid", "Al Kharid Rooftop"),
        ("al-kharid agility", "Al Kharid Rooftop"),
        ("alkharid", "Al Kharid Rooftop"),
        ("alkharid agility", "Al Kharid Rooftop"),
        ("varrock", "Varrock Rooftop"),
        ("varrock agility", "Varrock Rooftop"),
        ("canifis", "Canifis Rooftop"),
        ("canifis agility", "Canifis Rooftop"),
        ("fally", "Falador Rooftop"),
        ("fally agility", "Falador Rooftop"),
        ("falador", "Falador Rooftop"),
        ("falador agility", "Falador Rooftop"),
        ("seers", "Seers' Village Rooftop"),
        ("seers agility", "Seers' Village Rooftop"),
        ("seers village", "Seers' Village Rooftop"),
        ("seers village agility", "Seers' Village Rooftop"),
        ("seers'", "Seers' Village Rooftop"),
        ("seers' agility", "Seers' Village Rooftop"),
        ("seers' village", "Seers' Village Rooftop"),
        ("seers' village agility", "Seers' Village Rooftop"),
        ("seer's", "Seers' Village Rooftop"),
        ("seer's agility", "Seers' Village Rooftop"),
        ("seer's village", "Seers' Village Rooftop"),
        ("seer's village agility", "Seers' Village Rooftop"),
        ("pollnivneach", "Pollnivneach Rooftop"),
        ("pollnivneach agility", "Pollnivneach Rooftop"),
        ("rellekka", "Rellekka Rooftop"),
        ("rellekka agility", "Rellekka Rooftop"),
        ("ardy", "Ardougne Rooftop"),
        ("ardy agility", "Ardougne Rooftop"),
        ("ardy rooftop", "Ardougne Rooftop"),
        ("ardougne", "Ardougne Rooftop"),
        ("ardougne agility", "Ardougne Rooftop"),
        ("ap", "Agility Pyramid"),
        ("pyramid", "Agility Pyramid"),
        ("barb", "Barbarian Outpost"),
        ("barb outpost", "Barbarian Outpost"),
        ("brimhaven", "Agility Arena"),
        ("brimhaven agility", "Agility Arena"),
        ("dorg", "Dorgesh-Kaan Agility"),
        ("dorgesh kaan", "Dorgesh-Kaan Agility"),
        ("dorgesh-kaan", "Dorgesh-Kaan Agility"),
        ("gnome stronghold", "Gnome Stronghold Agility"),
        ("penguin", "Penguin Agility"),
        ("werewolf", "Werewolf Agility"),
        ("skullball", "Werewolf Skullball"),
        ("wildy", "Wilderness Agility"),
        ("wildy agility", "Wilderness Agility"),
        ("jad 1", "TzHaar-Ket-Rak's First Challenge"),
        ("jad 2", "TzHaar-Ket-Rak's Second Challenge"),
        ("jad 3", "TzHaar-Ket-Rak's Third Challenge"),
        ("jad 4", "TzHaar-Ket-Rak's Fourth Challenge"),
        ("jad 5", "TzHaar-Ket-Rak's Fifth Challenge"),
        ("jad 6", "TzHaar-Ket-Rak's Sixth Challenge"),
        ("gotr", "Guardians of the Rift"),
        ("runetodt", "Guardians of the Rift"),
        ("rifts closed", "Guardians of the Rift"),
        ("fishingtodt", "Tempoross"),
        ("fishtodt", "Tempoross"),
        ("phantom", "Phantom Muspah"),
        ("muspah", "Phantom Muspah"),
        ("pm", "Phantom Muspah"),
        ("the leviathan", "Leviathan"),
        ("levi", "Leviathan"),
        ("duke", "Duke Sucellus"),
        ("the whisperer", "Whisperer"),
        ("whisp", "Whisperer"),
        ("wisp", "Whisperer"),
        ("vard", "Vardorvis"),
        ("leviathan awakened", "Leviathan (awakened)"),
        ("the leviathan awakened", "Leviathan (awakened)"),
        ("levi awakened", "Leviathan (awakened)"),
        ("duke sucellus awakened", "Duke Sucellus (awakened)"),
        ("duke awakened", "Duke Sucellus (awakened)"),
        ("whisperer awakened", "Whisperer (awakened)"),
        ("the whisperer awakened", "Whisperer (awakened)"),
        ("whisp awakened", "Whisperer (awakened)"),
        ("wisp awakened", "Whisperer (awakened)"),
        ("vardorvis awakened", "Vardorvis (awakened)"),
        ("vard awakened", "Vardorvis (awakened)"),
        ("lunar chests", "Lunar Chest"),
        ("perilous moons", "Lunar Chest"),
        ("perilous moon", "Lunar Chest"),
        ("moons of peril", "Lunar Chest")
    ]
}

fn boss_alias_table() -> (r: Vec<(&'static str, &'static str)>)
    ensures
        r@ == boss_aliases(),
{
    let r = vec![
        ("corp", "Corporeal Beast"),
        ("jad", "TzTok-Jad"),
        ("tzhaar fight cave", "TzTok-Jad"),
        ("kq", "Kalphite Queen"),
        ("chaos ele", "Chaos Elemental"),
        ("dusk", "Grotesque Guardians"),
        ("dawn", "Grotesque Guardians"),
        ("gargs", "Grotesque Guardians"),
        ("ggs", "Grotesque Guardians"),
        ("gg", "Grotesque Guardians"),
        ("crazy arch", "Crazy Archaeologist"),
        ("deranged arch", "Deranged Archaeologist"),
        ("mole", "Giant Mole"),
        ("vetion", "Vet'ion"),
        ("calvarion", "Calvar'ion"),
        ("calv", "Calvar'ion"),
        ("vene", "Venenatis"),
        ("kbd", "King Black Dragon"),
        ("vork", "Vorkath"),
        ("sire", "Abyssal Sire"),
        ("smoke devil", "Thermonuclear Smoke Devil"),
        ("thermy", "Thermonuclear Smoke Devil"),
        ("cerb", "Cerberus"),
        ("zuk", "TzKal-Zuk"),
        ("inferno", "TzKal-Zuk"),
        ("hydra", "Alchemical Hydra"),
        ("sara", "Commander Zilyana"),
        ("saradomin", "Commander Zilyana"),
        ("zilyana", "Commander Zilyana"),
        ("zily", "Commander Zilyana"),
        ("zammy", "K'ril Tsutsaroth"),
        ("zamorak", "K'ril Tsutsaroth"),
        ("kril", "K'ril Tsutsaroth"),
        ("kril tsutsaroth", "K'ril Tsutsaroth"),
        ("arma", "Kree'arra"),
        ("kree", "Kree'arra"),
        ("kreearra", "Kree'arra"),
        ("armadyl", "Kree'arra"),
        ("bando", "General Graardor"),
        ("bandos", "General Graardor"),
        ("graardor", "General Graardor"),
        ("supreme", "Dagannoth Supreme"),
        ("rex", "Dagannoth Rex"),
        ("prime", "Dagannoth Prime"),
        ("wt", "Wintertodt"),
        ("barrows", "Barrows Chests"),
        ("herbi", "Herbiboar"),
        ("cox", "Chambers of Xeric"),
        ("xeric", "Chambers of Xeric"),
        ("chambers", "Chambers of Xeric"),
        ("olm", "Chambers of Xeric"),
        ("raids", "Chambers of Xeric"),
        ("cox 1", "Chambers of Xeric Solo"),
        ("cox solo", "Chambers of Xeric Solo"),
        ("cox 2", "Chambers of Xeric 2 players"),
        ("cox duo", "Chambers of Xeric 2 players"),
        ("cox 3", "Chambers of Xeric 3 players"),
        ("cox 4", "Chambers of Xeric 4 players"),
        ("cox 5", "Chambers of Xeric 5 players"),
        ("cox 6", "Chambers of Xeric 6 players"),
        ("cox 7", "Chambers of Xeric 7 players"),
        ("cox 8", "Chambers of Xeric 8 players"),
        ("cox 9", "Chambers of Xeric 9 players"),
        ("cox 10", "Chambers of Xeric 10 players"),
        ("cox 11-15", "Chambers of Xeric 11-15 players"),
        ("cox 11", "Chambers of Xeric 11-15 players"),
        ("cox 12", "Chambers of Xeric 11-15 players"),
        ("cox 13", "Chambers of Xeric 11-15 players"),
        ("cox 14", "Chambers of Xeric 11-15 players"),
        ("cox 15", "Chambers of Xeric 11-15 players"),
        ("cox 16-23", "Chambers of Xeric 16-23 players"),
        ("cox 16", "Chambers of Xeric 16-23 players"),
        ("cox 17", "Chambers of Xeric 16-23 players"),
        ("cox 18", "Chambers of Xeric 16-23 players"),
        ("cox 19", "Chambers of Xeric 16-23 players"),
        ("cox 20", "Chambers of Xeric 16-23 players"),
        ("cox 21", "Chambers of Xeric 16-23 players"),
        ("cox 22", "Chambers of Xeric 16-23 players"),
        ("cox 23", "Chambers of Xeric 16-23 players"),
        ("cox 24", "Chambers of Xeric 24+ players"),
        ("cox 24+", "Chambers of Xeric 24+ players"),
        ("chambers of xeric| challenge mode", "Chambers of Xeric Challenge Mode"),
        ("cox cm", "Chambers of Xeric Challenge Mode"),
        ("xeric cm", "Chambers of Xeric Challenge Mode"),
        ("chambers cm", "Chambers of Xeric Challenge Mode"),
        ("olm cm", "Chambers of Xeric Challenge Mode"),
        ("raids cm", "Chambers of Xeric Challenge Mode"),
        ("chambers of xeric - challenge mode", "Chambers of Xeric Challenge Mode"),
        ("cox cm 1", "Chambers of Xeric Challenge Mode Solo"),
        ("cox cm solo", "Chambers of Xeric Challenge Mode Solo"),
        ("cox cm 2", "Chambers of Xeric Challenge Mode 2 players"),
        ("cox cm duo", "Chambers of Xeric Challenge Mode 2 players"),
        ("cox cm 3", "Chambers of Xeric Challenge Mode 3 players"),
        ("cox cm 4", "Chambers of Xeric Challenge Mode 4 players"),
        ("cox cm 5", "Chambers of Xeric Challenge Mode 5 players"),
        ("cox cm 6", "Chambers of Xeric Challenge Mode 6 players"),
        ("cox cm 7", "Chambers of Xeric Challenge Mode 7 players"),
        ("cox cm 8", "Chambers of Xeric Challenge Mode 8 players"),
        ("cox cm 9", "Chambers of Xeric Challenge Mode 9 players"),
        ("cox cm 10", "Chambers of Xeric Challenge Mode 10 players"),
        ("cox cm 11-15", "Chambers of Xeric Challenge Mode 11-15 players"),
        ("cox cm 11", "Chambers of Xeric Challenge Mode 11-15 players"),
        ("cox cm 12", "Chambers of Xeric Challenge Mode 11-15 players"),
        ("cox cm 13", "Chambers of Xeric Challenge Mode 11-15 players"),
        ("cox cm 14", "Chambers of Xeric Challenge Mode 11-15 players"),
        ("cox cm 15", "Chambers of Xeric Challenge Mode 11-15 players"),
        ("cox cm 16-23", "Chambers of Xeric Challenge Mode 16-23 players"),
        ("cox cm 16", "Chambers of Xeric Challenge Mode 16-23 players"),
        ("cox cm 17", "Chambers of Xeric Challenge Mode 16-23 players"),
        ("cox cm 18", "Chambers of Xeric Challenge Mode 16-23 players"),
        ("cox cm 19", "Chambers of Xeric Challenge Mode 16-23 players"),
        ("cox cm 20", "Chambers of Xeric Challenge Mode 16-23 players"),
        ("cox cm 21", "Chambers of Xeric Challenge Mode 16-23 players"),
        ("cox cm 22", "Chambers of Xeric Challenge Mode 16-23 players"),
        ("cox cm 23", "Chambers of Xeric Challenge Mode 16-23 players"),
        ("cox cm 24", "Chambers of Xeric Challenge Mode 24+ players"),
        ("cox cm 24+", "Chambers of Xeric Challenge Mode 24+ players"),
        ("tob", "Theatre of Blood"),
        ("theatre", "Theatre of Blood"),
        ("verzik", "Theatre of Blood"),
        ("verzik vitur", "Theatre of Blood"),
        ("raids 2", "Theatre of Blood"),
        ("tob 1", "Theatre of Blood Solo"),
        ("tob solo", "Theatre of Blood Solo"),
        ("tob 2", "Theatre of Blood 2 players"),
        ("tob duo", "Theatre of Blood 2 players"),
        ("tob 3", "Theatre of Blood 3 players"),
        ("tob 4", "Theatre of Blood 4 players"),
        ("tob 5", "Theatre of Blood 5 players"),
        ("theatre of blood| story mode", "Theatre of Blood Entry Mode"),
        ("tob sm", "Theatre of Blood Entry Mode"),
        ("tob story mode", "Theatre of Blood Entry Mode"),
        ("tob story", "Theatre of Blood Entry Mode"),
        ("theatre of blood| entry mode", "Theatre of Blood Entry Mode"),
        ("tob em", "Theatre of Blood Entry Mode"),
        ("tob entry mode", "Theatre of Blood Entry Mode"),
        ("tob entry", "Theatre of Blood Entry Mode"),
        ("theatre of blood| hard mode", "Theatre of Blood Hard Mode"),
        ("tob cm", "Theatre of Blood Hard Mode"),
        ("tob hm", "Theatre of Blood Hard Mode"),
        ("tob hard mode", "Theatre of Blood Hard Mode"),
        ("tob hard", "Theatre of Blood Hard Mode"),
        ("hmt", "Theatre of Blood Hard Mode"),
        ("hmt 1", "Theatre of Blood Hard Mode Solo"),
        ("hmt solo", "Theatre of Blood Hard Mode Solo"),
        ("hmt 2", "Theatre of Blood Hard Mode 2 players"),
        ("hmt duo", "Theatre of Blood Hard Mode 2 players"),
        ("hmt 3", "Theatre of Blood Hard Mode 3 players"),
        ("hmt 4", "Theatre of Blood Hard Mode 4 players"),
        ("hmt 5", "Theatre of Blood Hard Mode 5 players"),
        ("toa", "Tombs of Amascut"),
        ("tombs", "Tombs of Amascut"),
        ("amascut", "Tombs of Amascut"),
        ("warden", "Tombs of Amascut"),
        ("wardens", "Tombs of Amascut"),
        ("raids 3", "Tombs of Amascut"),
        ("toa 1", "Tombs of Amascut Solo"),
        ("toa solo", "Tombs of Amascut Solo"),
        ("toa 2", "Tombs of Amascut 2 players"),
        ("toa duo", "Tombs of Amascut 2 players"),
        ("toa 3", "Tombs of Amascut 3 players"),
        ("toa 4", "Tombs of Amascut 4 players"),
        ("toa 5", "Tombs of Amascut 5 players"),
        ("toa 6", "Tombs of Amascut 6 players"),
        ("toa 7", "Tombs of Amascut 7 players"),
        ("toa 8", "Tombs of Amascut 8 players"),
        ("toa entry", "Tombs of Amascut Entry Mode"),
        ("tombs of amascut - entry", "Tombs of Amascut Entry Mode"),
        ("toa entry mode", "Tombs of Amascut Entry Mode"),
        ("toa entry 1", "Tombs of Amascut Entry Mode Solo"),
        ("toa entry solo", "Tombs of Amascut Entry Mode Solo"),
        ("toa entry 2", "Tombs of Amascut Entry Mode 2 players"),
        ("toa entry duo", "Tombs of Amascut Entry Mode 2 players"),
        ("toa entry 3", "Tombs of Amascut Entry Mode 3 players"),
        ("toa entry 4", "Tombs of Amascut Entry Mode 4 players"),
        ("toa entry 5", "Tombs of Amascut Entry Mode 5 players"),
        ("toa entry 6", "Tombs of Amascut Entry Mode 6 players"),
        ("toa entry 7", "Tombs of Amascut Entry Mode 7 players"),
        ("toa entry 8", "Tombs of Amascut Entry Mode 8 players"),
        ("tombs of amascut| expert mode", "Tombs of Amascut Expert Mode"),
        ("toa expert", "Tombs of Amascut Expert Mode"),
        ("tombs of amascut - expert", "Tombs of Amascut Expert Mode"),
        ("toa expert mode", "Tombs of Amascut Expert Mode"),
        ("toa expert 1", "Tombs of Amascut Expert Mode Solo"),
        ("toa expert solo", "Tombs of Amascut Expert Mode Solo"),
        ("toa expert 2", "Tombs of Amascut Expert Mode 2 players"),
        ("toa expert duo", "Tombs of Amascut Expert Mode 2 players"),
        ("toa expert 3", "Tombs of Amascut Expert Mode 3 players"),
        ("toa expert 4", "Tombs of Amascut Expert Mode 4 players"),
        ("toa expert 5", "Tombs of Amascut Expert Mode 5 players"),
        ("toa expert 6", "Tombs of Amascut Expert Mode 6 players"),
        ("toa expert 7", "Tombs of Amascut Expert Mode 7 players"),
        ("toa expert 8", "Tombs of Amascut Expert Mode 8 players"),
        ("gaunt", "Gauntlet"),
        ("gauntlet", "Gauntlet"),
        ("the gauntlet", "Gauntlet"),
        ("cgaunt", "Corrupted Gauntlet"),
        ("cgauntlet", "Corrupted Gauntlet"),
        ("the corrupted gauntlet", "Corrupted Gauntlet"),
        ("cg", "Corrupted Gauntlet"),
        ("nm", "Nightmare"),
        ("tnm", "Nightmare"),
        ("nmare", "Nightmare"),
        ("the nightmare", "Nightmare"),
        ("pnm", "Phosani's Nightmare"),
        ("phosani", "Phosani's Nightmare"),
        ("phosanis", "Phosani's Nightmare"),
        ("phosani nm", "Phosani's Nightmare"),
        ("phosani nightmare", "Phosani's Nightmare"),
        ("phosanis nightmare", "Phosani's Nightmare"),
        ("hs", "Hallowed Sepulchre"),
        ("sepulchre", "Hallowed Sepulchre"),
        ("ghc", "Hallowed Sepulchre"),
        ("hs1", "Hallowed Sepulchre Floor 1"),
        ("hs 1", "Hallowed Sepulchre Floor 1"),
        ("hs2", "Hallowed Sepulchre Floor 2"),
        ("hs 2", "Hallowed Sepulchre Floor 2"),
        ("hs3", "Hallowed Sepulchre Floor 3"),
        ("hs 3", "Hallowed Sepulchre Floor 3"),
        ("hs4", "Hallowed Sepulchre Floor 4"),
        ("hs 4", "Hallowed Sepulchre Floor 4"),
        ("hs5", "Hallowed Sepulchre Floor 5"),
        ("hs 5", "Hallowed Sepulchre Floor 5"),
        ("prif", "Prifddinas Agility Course"),
        ("prifddinas", "Prifddinas Agility Course"),
        ("shayb", "Shayzien Basic Agility Course"),
        ("sbac", "Shayzien Basic Agility Course"),
        ("shayzienbasic", "Shayzien Basic Agility Course"),
        ("shayzien basic", "Shayzien Basic Agility Course"),
        ("shaya", "Shayzien Advanced Agility Course"),
        ("saac", "Shayzien Advanced Agility Course"),
        ("shayadv", "Shayzien Advanced Agility Course"),
        ("shayadvanced", "Shayzien Advanced Agility Course"),
        ("shayzien advanced", "Shayzien Advanced Agility Course"),
        ("aa", "Ape Atoll Agility"),
        ("ape atoll", "Ape Atoll Agility"),
        ("draynor", "Draynor Village Rooftop"),
        ("draynor agility", "Draynor Village Rooftop"),
        ("al kharid", "Al Kharid Rooftop"),
        ("al kharid agility", "Al Kharid Rooftop"),
        ("al-kharid", "Al Kharid Rooftop"),
        ("al-kharid agility", "Al Kharid Rooftop"),
        ("alkharid", "Al Kharid Rooftop"),
        ("alkharid agility", "Al Kharid Rooftop"),
        ("varrock", "Varrock Rooftop"),
        ("varrock agility", "Varrock Rooftop"),
        ("canifis", "Canifis Rooftop"),
        ("canifis agility", "Canifis Rooftop"),
        ("fally", "Falador Rooftop"),
        ("fally agility", "Falador Rooftop"),
        ("falador", "Falador Rooftop"),
        ("falador agility", "Falador Rooftop"),
        ("seers", "Seers' Village Rooftop"),
        ("seers agility", "Seers' Village Rooftop"),
        ("seers village", "Seers' Village Rooftop"),
        ("seers village agility", "Seers' Village Rooftop"),
        ("seers'", "Seers' Village Rooftop"),
        ("seers' agility", "Seers' Village Rooftop"),
        ("seers' village", "Seers' Village Rooftop"),
        ("seers' village agility", "Seers' Village Rooftop"),
        ("seer's", "Seers' Village Rooftop"),
        ("seer's agility", "Seers' Village Rooftop"),
        ("seer's village", "Seers' Village Rooftop"),
        ("seer's village agility", "Seers' Village Rooftop"),
        ("pollnivneach", "Pollnivneach Rooftop"),
        ("pollnivneach agility", "Pollnivneach Rooftop"),
        ("rellekka", "Rellekka Rooftop"),
        ("rellekka agility", "Rellekka Rooftop"),
        ("ardy", "Ardougne Rooftop"),
        ("ardy agility", "Ardougne Rooftop"),
        ("ardy rooftop", "Ardougne Rooftop"),
        ("ardougne", "Ardougne Rooftop"),
        ("ardougne agility", "Ardougne Rooftop"),
        ("ap", "Agility Pyramid"),
        ("pyramid", "Agility Pyramid"),
        ("barb", "Barbarian Outpost"),
        ("barb outpost", "Barbarian Outpost"),
        ("brimhaven", "Agility Arena"),
        ("brimhaven agility", "Agility Arena"),
        ("dorg", "Dorgesh-Kaan Agility"),
        ("dorgesh kaan", "Dorgesh-Kaan Agility"),
        ("dorgesh-kaan", "Dorgesh-Kaan Agility"),
        ("gnome stronghold", "Gnome Stronghold Agility"),
        ("penguin", "Penguin Agility"),
        ("werewolf", "Werewolf Agility"),
        ("skullball", "Werewolf Skullball"),
        ("wildy", "Wilderness Agility"),
        ("wildy agility", "Wilderness Agility"),
        ("jad 1", "TzHaar-Ket-Rak's First Challenge"),
        ("jad 2", "TzHaar-Ket-Rak's Second Challenge"),
        ("jad 3", "TzHaar-Ket-Rak's Third Challenge"),
        ("jad 4", "TzHaar-Ket-Rak's Fourth Challenge"),
        ("jad 5", "TzHaar-Ket-Rak's Fifth Challenge"),
        ("jad 6", "TzHaar-Ket-Rak's Sixth Challenge"),
        ("gotr", "Guardians of the Rift"),
        ("runetodt", "Guardians of the Rift"),
        ("rifts closed", "Guardians of the Rift"),
        ("fishingtodt", "Tempoross"),
        ("fishtodt", "Tempoross"),
        ("phantom", "Phantom Muspah"),
        ("muspah", "Phantom Muspah"),
        ("pm", "Phantom Muspah"),
        ("the leviathan", "Leviathan"),
        ("levi", "Leviathan"),
        ("duke", "Duke Sucellus"),
        ("the whisperer", "Whisperer"),
        ("whisp", "Whisperer"),
        ("wisp", "Whisperer"),
        ("vard", "Vardorvis"),
        ("leviathan awakened", "Leviathan (awakened)"),
        ("the leviathan awakened", "Leviathan (awakened)"),
        ("levi awakened", "Leviathan (awakened)"),
        ("duke sucellus awakened", "Duke Sucellus (awakened)"),
        ("duke awakened", "Duke Sucellus (awakened)"),
        ("whisperer awakened", "Whisperer (awakened)"),
        ("the whisperer awakened", "Whisperer (awakened)"),
        ("whisp awakened", "Whisperer (awakened)"),
        ("wisp awakened", "Whisperer (awakened)"),
        ("vardorvis awakened", "Vardorvis (awakened)"),
        ("vard awakened", "Vardorvis (awakened)"),
        ("lunar chests", "Lunar Chest"),
        ("perilous moons", "Lunar Chest"),
        ("perilous moon", "Lunar Chest"),
        ("moons of peril", "Lunar Chest")
    ];
    assert(r@ =~= boss_aliases());
    r
}

/// The long name the first alias of the table equal to `alias` stands for.
pub open spec fn alias_lookup(table: Seq<(&'static str, &'static str)>, alias: Seq<char>) -> Option<
    Seq<char>,
>
    decreases table.len(),
{
    if table.len() == 0 {
        None
    } else if table[0].0@ == alias {
        Some(table[0].1@)
    } else {
        alias_lookup(table.drop_first(), alias)
    }
}

fn lookup_alias(table: &Vec<(&'static str, &'static str)>, alias: &str) -> (r: Option<&'static str>)
    ensures
        r matches Some(name) ==> alias_lookup(table@, alias@) == Some(name@),
        r is None ==> alias_lookup(table@, alias@) is None,
{
    let mut i: usize = 0;
    assert(table@.subrange(0, table@.len() as int) =~= table@);
    while i < table.len()
        invariant
            i <= table.len(),
            alias_lookup(table@, alias@) == alias_lookup(
                table@.subrange(i as int, table@.len() as int),
                alias@,
            ),
        decreases table.len() - i,
    {
        let ghost rest = table@.subrange(i as int, table@.len() as int);
        assert(rest[0] == table@[i as int]);
        let (short, long) = table[i];
        if str_eq(short, alias) {
            return Some(long);
        }
        assert(rest.drop_first() =~= table@.subrange(i + 1, table@.len() as int));
        i = i + 1;
    }
    None
}

/// What `Capitalize::capitalize` of the `capitalize` crate returns for `word`: its first
/// character in title case and the rest in lower case, by Unicode's case mappings.
pub uninterp spec fn capitalized(word: Seq<char>) -> Seq<char>;

/// Calls `capitalize::Capitalize::capitalize`. Claimed: the result is `capitalized(word@)`, a
/// function of the word alone; the case mappings themselves are not stated.
#[verifier::external_body]
fn capitalize_word(word: &str) -> (r: String)
    ensures
        r@ == capitalized(word@),
{
    word.capitalize()
}

/// The pieces of `text` between its spaces, as `str::split(" ")` gives them (so `n` spaces make
/// `n + 1` pieces, some perhaps empty).
pub open spec fn space_separated(text: Seq<char>) -> Seq<Seq<char>>
    decreases text.len(),
{
    if text.len() == 0 {
        seq![Seq::empty()]
    } else {
        let before = space_separated(text.drop_last());
        if text.last() == ' ' {
            before.push(Seq::empty())
        } else {
            before.update(before.len() - 1, before.last().push(text.last()))
        }
    }
}

/// Each word capitalized and followed by a space.
pub open spec fn capitalized_words(words: Seq<Seq<char>>) -> Seq<char>
    decreases words.len(),
{
    if words.len() == 0 {
        Seq::empty()
    } else {
        capitalized_words(words.drop_last()) + capitalized(words.last()) + seq![' ']
    }
}

/// Every space-separated word of `text`, capitalized and followed by a space.
fn capitalize_each_word(text: &Vec<char>) -> (r: String)
    ensures
        r@ == capitalized_words(space_separated(text@)),
{
    let mut out: Vec<char> = Vec::new();
    let mut word: Vec<char> = Vec::new();
    let mut i: usize = 0;
    assert(text@.take(0) =~= Seq::<char>::empty());
    while i < text.len()
        invariant
            i <= text.len(),
            space_separated(text@.take(i as int)).len() >= 1,
            out@ == capitalized_words(space_separated(text@.take(i as int)).drop_last()),
            word@ == space_separated(text@.take(i as int)).last(),
        decreases text.len() - i,
    {
        let ghost w = space_separated(text@.take(i as int));
        assert(text@.take(i + 1).drop_last() =~= text@.take(i as int));
        assert(text@.take(i + 1).last() == text@[i as int]);
        if text[i] == ' ' {
            let word_text = string_of(&word);
            let cap = capitalize_word(word_text.as_str());
            push_str(&mut out, cap.as_str());
            out.push(' ');
            word = Vec::new();
            assert(w.push(Seq::empty()).drop_last() =~= w);
            assert(w =~= w.drop_last().push(w.last()));
            assert(out@ =~= capitalized_words(w.drop_last()) + capitalized(w.last()) + seq![' ']);
        } else {
            word.push(text[i]);
            let ghost u = w.update(w.len() - 1, w.last().push(text@[i as int]));
            assert(u.drop_last() =~= w.drop_last());
        }
        i = i + 1;
    }
    assert(text@.take(i as int) =~= text@);
    let ghost w = space_separated(text@);
    let word_text = string_of(&word);
    let cap = capitalize_word(word_text.as_str());
    push_str(&mut out, cap.as_str());
    out.push(' ');
    assert(w =~= w.drop_last().push(w.last()));
    assert(out@ =~= capitalized_words(w.drop_last()) + capitalized(w.last()) + seq![' ']);
    string_of(&out)
}

/// A chat command without its three-character command word (`!pb`), trimmed.
pub open spec fn command_argument(message: Seq<char>) -> Seq<char> {
    trim(
        if message.len() <= 3 {
            Seq::empty()
        } else {
            message.subrange(3, message.len() as int)
        },
    )
}

/// The long name for the boss a `!pb` command names: the table's name for the lowercased
/// argument, or else the argument's space-separated words, each capitalized and followed by
/// a space.
pub open spec fn boss_long_name(message: Seq<char>) -> Seq<char> {
    let boss = command_argument(message);
    match alias_lookup(boss_aliases(), lowercase(boss)) {
        Some(name) => name,
        None => capitalized_words(space_separated(boss)),
    }
}

/// The long name depends only on the trimmed text after the three-character command word:
/// any command word, and any white space around the boss, give the same name.
pub proof fn lemma_boss_name_ignores_command_word_and_spaces(
    p1: Seq<char>,
    p2: Seq<char>,
    s: Seq<char>,
)
    requires
        p1.len() == 3,
        p2.len() == 3,
    ensures
        boss_long_name(p1 + s) == boss_long_name(p2 + trim(s)),
{
    lemma_command_argument(p1, s);
    lemma_command_argument(p2, trim(s));
    crate::text::lemma_trim_idempotent(s);
}

proof fn lemma_command_argument(p: Seq<char>, s: Seq<char>)
    requires
        p.len() == 3,
    ensures
        command_argument(p + s) == trim(s),
{
    if s.len() == 0 {
        assert(s =~= Seq::<char>::empty());
    } else {
        assert((p + s).subrange(3, (p + s).len() as int) =~= s);
    }
}

/// Aliases are matched without regard to case: two commands whose arguments are the same in
/// lower case, and name a known alias, give the same long name.
pub proof fn lemma_boss_aliases_ignore_case(m1: Seq<char>, m2: Seq<char>)
    requires
        lowercase(command_argument(m1)) == lowercase(command_argument(m2)),
        alias_lookup(boss_aliases(), lowercase(command_argument(m1))) is Some,
    ensures
        boss_long_name(m1) == boss_long_name(m2),
{
}

/// The long name of the boss that a `!pb` command names.
pub fn get_boss_long_name(message: &String) -> (r: String)
    ensures
        r@ == boss_long_name(message@),
{
    let chars = chars_of(message.as_str());
    let mut rest: Vec<char> = Vec::new();
    let mut i: usize = 3;
    while i < chars.len()
        invariant
            3 <= i,
            chars.len() > 3 ==> i <= chars.len() && rest@ == chars@.subrange(3, i as int),
            chars.len() <= 3 ==> rest@.len() == 0,
        decreases chars.len() - i,
    {
        rest.push(chars[i]);
        i = i + 1;
        assert(rest@ =~= chars@.subrange(3, i as int));
    }
    proof {
        if chars.len() <= 3 {
            assert(rest@ =~= Seq::<char>::empty());
        }
    }
    let boss = trim_exec(&rest);
    let boss_text = string_of(&boss);
    let lower = to_lowercase(boss_text.as_str());
    let table = boss_alias_table();
    match lookup_alias(&table, lower.as_str()) {
        Some(name) => crate::text::owned(name),
        None => capitalize_each_word(&boss),
    }
}


/// What a `!pb` command asks for.
pub enum PbLookup {
    /// The command names no boss.
    NoBoss,
    /// The joke boss "nerdicus": a made-up time is recorded for it.
    MadeUpTime { boss: String },
    /// Ask RuneLite for the player's time on this boss.
    Request { boss: String },
}

pub enum PbLookupView {
    NoBoss,
    MadeUpTime { boss: Seq<char> },
    Request { boss: Seq<char> },
}

impl View for PbLookup {
    type V = PbLookupView;

    open spec fn view(&self) -> PbLookupView {
        match self {
            PbLookup::NoBoss => PbLookupView::NoBoss,
            PbLookup::MadeUpTime { boss } => PbLookupView::MadeUpTime { boss: boss@ },
            PbLookup::Request { boss } => PbLookupView::Request { boss: boss@ },
        }
    }
}

/// What a `!pb` command asks for: nothing when it names no boss, else the trimmed long name
/// of the boss, a made-up time for "nerdicus" (in any case).
pub open spec fn pb_lookup_of(message: Seq<char>) -> PbLookupView {
    let boss = boss_long_name(message);
    if boss.len() == 0 {
        PbLookupView::NoBoss
    } else if lowercase(trim(boss)) == "nerdicus"@ {
        PbLookupView::MadeUpTime { boss: trim(boss) }
    } else {
        PbLookupView::Request { boss: trim(boss) }
    }
}

/// What a `!pb` command asks for.
pub fn pb_lookup(message: &String) -> (r: PbLookup)
    ensures
        r@ == pb_lookup_of(message@),
{
    let boss = get_boss_long_name(message);
    let chars = chars_of(boss.as_str());
    if chars.len() == 0 {
        return PbLookup::NoBoss;
    }
    let trimmed = string_of(&trim_exec(&chars));
    let lower = to_lowercase(trimmed.as_str());
    if str_eq(lower.as_str(), "nerdicus") {
        PbLookup::MadeUpTime { boss: trimmed }
    } else {
        PbLookup::Request { boss: trimmed }
    }
}

/// The RuneLite API request for a player's personal best on a boss.
pub fn pb_request_url(runelite_api_url: &str, player: &str, boss: &str) -> (r: String)
    ensures
        r@ == runelite_api_url@ + "/chat/pb?name="@ + player@ + "&boss="@ + boss@,
{
    let mut v: Vec<char> = Vec::new();
    push_str(&mut v, runelite_api_url);
    push_str(&mut v, "/chat/pb?name=");
    push_str(&mut v, player);
    push_str(&mut v, "&boss=");
    push_str(&mut v, boss);
    string_of(&v)
}


/// The boss names that RuneLite files personal bests under, each with the short names that
/// stand for it, in the order a `!pb` command's argument is matched against them.
pub open spec fn boss_alias_groups() -> Seq<(Seq<&'static str>, &'static str)> {
    seq![
        (seq!["corp"], "Corporeal Beast"),
        (seq!["jad", "tzhaar fight cave"], "TzTok-Jad"),
        (seq!["kq"], "Kalphite Queen"),
        (seq!["chaos ele"], "Chaos Elemental"),
        (seq!["dusk", "dawn", "gargs", "ggs", "gg"], "Grotesque Guardians"),
        (seq!["crazy arch"], "Crazy Archaeologist"),
        (seq!["deranged arch"], "Deranged Archaeologist"),
        (seq!["mole"], "Giant Mole"),
        (seq!["vetion"], "Vet'ion"),
        (seq!["calvarion", "calv"], "Calvar'ion"),
        (seq!["vene"], "Venenatis"),
        (seq!["kbd"], "King Black Dragon"),
        (seq!["vork"], "Vorkath"),
        (seq!["sire"], "Abyssal Sire"),
        (seq!["smoke devil", "thermy"], "Thermonuclear Smoke Devil"),
        (seq!["cerb"], "Cerberus"),
        (seq!["zuk", "inferno"], "TzKal-Zuk"),
        (seq!["hydra"], "Alchemical Hydra"),
        (seq!["sara", "saradomin", "zilyana", "zily"], "Commander Zilyana"),
        (seq!["zammy", "zamorak", "kril", "kril tsutsaroth"], "K'ril Tsutsaroth"),
        (seq!["arma", "kree", "kreearra", "armadyl"], "Kree'arra"),
        (seq!["bando", "bandos", "graardor"], "General Graardor"),
        (seq!["supreme"], "Dagannoth Supreme"),
        (seq!["rex"], "Dagannoth Rex"),
        (seq!["prime"], "Dagannoth Prime"),
        (seq!["wt"], "Wintertodt"),
        (seq!["barrows"], "Barrows Chests"),
        (seq!["herbi"], "Herbiboar"),
        (seq!["cox", "xeric", "chambers", "olm", "raids"], "Chambers of Xeric"),
        (seq!["cox 1", "cox solo"], "Chambers of Xeric Solo"),
        (seq!["cox 2", "cox duo"], "Chambers of Xeric 2 players"),
        (seq!["cox 3"], "Chambers of Xeric 3 players"),
        (seq!["cox 4"], "Chambers of Xeric 4 players"),
        (seq!["cox 5"], "Chambers of Xeric 5 players"),
        (seq!["cox 6"], "Chambers of Xeric 6 players"),
        (seq!["cox 7"], "Chambers of Xeric 7 players"),
        (seq!["cox 8"], "Chambers of Xeric 8 players"),
        (seq!["cox 9"], "Chambers of Xeric 9 players"),
        (seq!["cox 10"], "Chambers of Xeric 10 players"),
        (seq!["cox 11-15", "cox 11", "cox 12", "cox 13", "cox 14", "cox 15"], "Chambers of Xeric 11-15 players"),
        (seq!["cox 16-23", "cox 16", "cox 17", "cox 18", "cox 19", "cox 20", "cox 21", "cox 22", "cox 23"], "Chambers of Xeric 16-23 players"),
        (seq!["cox 24", "cox 24+"], "Chambers of Xeric 24+ players"),
        (seq!["chambers of xeric| challenge mode", "cox cm", "xeric cm", "chambers cm", "olm cm", "raids cm", "chambers of xeric - challenge mode"], "Chambers of Xeric Challenge Mode"),
        (seq!["cox cm 1", "cox cm solo"], "Chambers of Xeric Challenge Mode Solo"),
        (seq!["cox cm 2", "cox cm duo"], "Chambers of Xeric Challenge Mode 2 players"),
        (seq!["cox cm 3"], "Chambers of Xeric Challenge Mode 3 players"),
        (seq!["cox cm 4"], "Chambers of Xeric Challenge Mode 4 players"),
        (seq!["cox cm 5"], "Chambers of Xeric Challenge Mode 5 players"),
        (seq!["cox cm 6"], "Chambers of Xeric Challenge Mode 6 players"),
        (seq!["cox cm 7"], "Chambers of Xeric Challenge Mode 7 players"),
        (seq!["cox cm 8"], "Chambers of Xeric Challenge Mode 8 players"),
        (seq!["cox cm 9"], "Chambers of Xeric Challenge Mode 9 players"),
        (seq!["cox cm 10"], "Chambers of Xeric Challenge Mode 10 players"),
        (seq!["cox cm 11-15", "cox cm 11", "cox cm 12", "cox cm 13", "cox cm 14", "cox cm 15"], "Chambers of Xeric Challenge Mode 11-15 players"),
        (seq!["cox cm 16-23", "cox cm 16", "cox cm 17", "cox cm 18", "cox cm 19", "cox cm 20", "cox cm 21", "cox cm 22", "cox cm 23"], "Chambers of Xeric Challenge Mode 16-23 players"),
        (seq!["cox cm 24", "cox cm 24+"], "Chambers of Xeric Challenge Mode 24+ players"),
        (seq!["tob", "theatre", "verzik", "verzik vitur", "raids 2"], "Theatre of Blood"),
        (seq!["tob 1", "tob solo"], "Theatre of Blood Solo"),
        (seq!["tob 2", "tob duo"], "Theatre of Blood 2 players"),
        (seq!["tob 3"], "Theatre of Blood 3 players"),
        (seq!["tob 4"], "Theatre of Blood 4 players"),
        (seq!["tob 5"], "Theatre of Blood 5 players"),
        (seq!["theatre of blood| story mode", "tob sm", "tob story mode", "tob story", "theatre of blood| entry mode", "tob em", "tob entry mode", "tob entry"], "Theatre of Blood Entry Mode"),
        (seq!["theatre of blood| hard mode", "tob cm", "tob hm", "tob hard mode", "tob hard", "hmt"], "Theatre of Blood Hard Mode"),
        (seq!["hmt 1", "hmt solo"], "Theatre of Blood Hard Mode Solo"),
        (seq!["hmt 2", "hmt duo"], "Theatre of Blood Hard Mode 2 players"),
        (seq!["hmt 3"], "Theatre of Blood Hard Mode 3 players"),
        (seq!["hmt 4"], "Theatre of Blood Hard Mode 4 players"),
        (seq!["hmt 5"], "Theatre of Blood Hard Mode 5 players"),
        (seq!["toa", "tombs", "amascut", "warden", "wardens", "raids 3"], "Tombs of Amascut"),
        (seq!["toa 1", "toa solo"], "Tombs of Amascut Solo"),
        (seq!["toa 2", "toa duo"], "Tombs of Amascut 2 players"),
        (seq!["toa 3"], "Tombs of Amascut 3 players"),
        (seq!["toa 4"], "Tombs of Amascut 4 players"),
        (seq!["toa 5"], "Tombs of Amascut 5 players"),
        (seq!["toa 6"], "Tombs of Amascut 6 players"),
        (seq!["toa 7"], "Tombs of Amascut 7 players"),
        (seq!["toa 8"], "Tombs of Amascut 8 players"),
        (seq!["toa entry", "tombs of amascut - entry", "toa entry mode"], "Tombs of Amascut Entry Mode"),
        (seq!["toa entry 1", "toa entry solo"], "Tombs of Amascut Entry Mode Solo"),
        (seq!["toa entry 2", "toa entry duo"], "Tombs of Amascut Entry Mode 2 players"),
        (seq!["toa entry 3"], "Tombs of Amascut Entry Mode 3 players"),
        (seq!["toa entry 4"], "Tombs of Amascut Entry Mode 4 players"),
        (seq!["toa entry 5"], "Tombs of Amascut Entry Mode 5 players"),
        (seq!["toa entry 6"], "Tombs of Amascut Entry Mode 6 players"),
        (seq!["toa entry 7"], "Tombs of Amascut Entry Mode 7 players"),
        (seq!["toa entry 8"], "Tombs of Amascut Entry Mode 8 players"),
        (seq!["tombs of amascut| expert mode", "toa expert", "tombs of amascut - expert", "toa expert mode"], "Tombs of Amascut Expert Mode"),
        (seq!["toa expert 1", "toa expert solo"], "Tombs of Amascut Expert Mode Solo"),
        (seq!["toa expert 2", "toa expert duo"], "Tombs of Amascut Expert Mode 2 players"),
        (seq!["toa expert 3"], "Tombs of Amascut Expert Mode 3 players"),
        (seq!["toa expert 4"], "Tombs of Amascut Expert Mode 4 players"),
        (seq!["toa expert 5"], "Tombs of Amascut Expert Mode 5 players"),
        (seq!["toa expert 6"], "Tombs of Amascut Expert Mode 6 players"),
        (seq!["toa expert 7"], "Tombs of Amascut Expert Mode 7 players"),
        (seq!["toa expert 8"], "Tombs of Amascut Expert Mode 8 players"),
        (seq!["gaunt", "gauntlet", "the gauntlet"], "Gauntlet"),
        (seq!["cgaunt", "cgauntlet", "the corrupted gauntlet", "cg"], "Corrupted Gauntlet"),
        (seq!["nm", "tnm", "nmare", "the nightmare"], "Nightmare"),
        (seq!["pnm", "phosani", "phosanis", "phosani nm", "phosani nightmare", "phosanis nightmare"], "Phosani's Nightmare"),
        (seq!["hs", "sepulchre", "ghc"], "Hallowed Sepulchre"),
        (seq!["hs1", "hs 1"], "Hallowed Sepulchre Floor 1"),
        (seq!["hs2", "hs 2"], "Hallowed Sepulchre Floor 2"),
        (seq!["hs3", "hs 3"], "Hallowed Sepulchre Floor 3"),
        (seq!["hs4", "hs 4"], "Hallowed Sepulchre Floor 4"),
        (seq!["hs5", "hs 5"], "Hallowed Sepulchre Floor 5"),
        (seq!["prif", "prifddinas"], "Prifddinas Agility Course"),
        (seq!["shayb", "sbac", "shayzienbasic", "shayzien basic"], "Shayzien Basic Agility Course"),
        (seq!["shaya", "saac", "shayadv", "shayadvanced", "shayzien advanced"], "Shayzien Advanced Agility Course"),
        (seq!["aa", "ape atoll"], "Ape Atoll Agility"),
        (seq!["draynor", "draynor agility"], "Draynor Village Rooftop"),
        (seq!["al kharid", "al kharid agility", "al-kharid", "al-kharid agility", "alkharid", "alkharid agility"], "Al Kharid Rooftop"),
        (seq!["varrock", "varrock agility"], "Varrock Rooftop"),
        (seq!["canifis", "canifis agility"], "Canifis Rooftop"),
        (seq!["fally", "fally agility", "falador", "falador agility"], "Falador Rooftop"),
        (seq!["seers", "seers agility", "seers village", "seers village agility", "seers'", "seers' agility", "seers' village", "seers' village agility", "seer's", "seer's agility", "seer's village", "seer's village agility"], "Seers' Village Rooftop"),
        (seq!["pollnivneach", "pollnivneach agility"], "Pollnivneach Rooftop"),
        (seq!["rellekka", "rellekka agility"], "Rellekka Rooftop"),
        (seq!["ardy", "ardy agility", "ardy rooftop", "ardougne", "ardougne agility"], "Ardougne Rooftop"),
        (seq!["ap", "pyramid"], "Agility Pyramid"),
        (seq!["barb", "barb outpost"], "Barbarian Outpost"),
        (seq!["brimhaven", "brimhaven agility"], "Agility Arena"),
        (seq!["dorg", "dorgesh kaan", "dorgesh-kaan"], "Dorgesh-Kaan Agility"),
        (seq!["gnome stronghold"], "Gnome Stronghold Agility"),
        (seq!["penguin"], "Penguin Agility"),
        (seq!["werewolf"], "Werewolf Agility"),
        (seq!["skullball"], "Werewolf Skullball"),
        (seq!["wildy", "wildy agility"], "Wilderness Agility"),
        (seq!["jad 1"], "TzHaar-Ket-Rak's First Challenge"),
        (seq!["jad 2"], "TzHaar-Ket-Rak's Second Challenge"),
        (seq!["jad 3"], "TzHaar-Ket-Rak's Third Challenge"),
        (seq!["jad 4"], "TzHaar-Ket-Rak's Fourth Challenge"),
        (seq!["jad 5"], "TzHaar-Ket-Rak's Fifth Challenge"),
        (seq!["jad 6"], "TzHaar-Ket-Rak's Sixth Challenge"),
        (seq!["gotr", "runetodt", "rifts closed"], "Guardians of the Rift"),
        (seq!["fishingtodt", "fishtodt"], "Tempoross"),
        (seq!["phantom", "muspah", "pm"], "Phantom Muspah"),
        (seq!["the leviathan", "levi"], "Leviathan"),
        (seq!["duke"], "Duke Sucellus"),
        (seq!["the whisperer", "whisp", "wisp"], "Whisperer"),
        (seq!["vard"], "Vardorvis"),
        (seq!["leviathan awakened", "the leviathan awakened", "levi awakened"], "Leviathan (awakened)"),
        (seq!["duke sucellus awakened", "duke awakened"], "Duke Sucellus (awakened)"),
        (seq!["whisperer awakened", "the whisperer awakened", "whisp awakened", "wisp awakened"], "Whisperer (awakened)"),
        (seq!["vardorvis awakened", "vard awakened"], "Vardorvis (awakened)"),
        (seq!["lunar chests", "perilous moons", "perilous moon", "moons of peril"], "Lunar Chest")
    ]
}

/// The long name of the first group that has `alias` among its short names.
pub open spec fn grouped_alias_lookup(
    groups: Seq<(Seq<&'static str>, &'static str)>,
    alias: Seq<char>,
) -> Option<Seq<char>>
    decreases groups.len(),
{
    if groups.len() == 0 {
        None
    } else if exists|k: int| 0 <= k < groups[0].0.len() && (#[trigger] groups[0].0[k])@ == alias {
        Some(groups[0].1@)
    } else {
        grouped_alias_lookup(groups.drop_first(), alias)
    }
}

/// One step of a table lookup: the first row of what is left is tried, then the rest.
proof fn lemma_lookup_step(table: Seq<(&'static str, &'static str)>, i: int, alias: Seq<char>)
    requires
        0 <= i < table.len(),
    ensures
        alias_lookup(table.subrange(i, table.len() as int), alias) == if table[i].0@ == alias {
            Some(table[i].1@)
        } else {
            alias_lookup(table.subrange(i + 1, table.len() as int), alias)
        },
{
    let rest = table.subrange(i, table.len() as int);
    assert(rest[0] == table[i]);
    assert(rest.drop_first() =~= table.subrange(i + 1, table.len() as int));
}

/// Looking up from row `i + k` of a run of rows that all carry group `g`'s short names, in
/// order, and its long name.
proof fn lemma_lookup_in_group(
    table: Seq<(&'static str, &'static str)>,
    groups: Seq<(Seq<&'static str>, &'static str)>,
    alias: Seq<char>,
    i: int,
    g: int,
    k: int,
)
    requires
        0 <= g < groups.len(),
        0 <= i,
        0 <= k <= groups[g].0.len(),
        i + groups[g].0.len() <= table.len(),
        forall|j: int|
            0 <= j < groups[g].0.len() ==> table[i + j] == (#[trigger] groups[g].0[j], groups[g].1),
    ensures
        alias_lookup(table.subrange(i + k, table.len() as int), alias) == if exists|j: int|
            k <= j < groups[g].0.len() && (#[trigger] groups[g].0[j])@ == alias {
            Some(groups[g].1@)
        } else {
            alias_lookup(table.subrange(i + groups[g].0.len(), table.len() as int), alias)
        },
    decreases groups[g].0.len() - k,
{
    if k < groups[g].0.len() {
        lemma_lookup_in_group(table, groups, alias, i, g, k + 1);
        lemma_lookup_step(table, i + k, alias);
        assert(table[i + k] == (groups[g].0[k], groups[g].1));
        if exists|j: int| k + 1 <= j < groups[g].0.len() && (#[trigger] groups[g].0[j])@ == alias {
            let j = choose|j: int|
                k + 1 <= j < groups[g].0.len() && (#[trigger] groups[g].0[j])@ == alias;
            assert(k <= j);
        }
    }
}

/// A run of rows carrying a whole group is looked up as the group is.
proof fn lemma_group_step(
    table: Seq<(&'static str, &'static str)>,
    groups: Seq<(Seq<&'static str>, &'static str)>,
    alias: Seq<char>,
    i: int,
    g: int,
)
    requires
        0 <= g < groups.len(),
        0 <= i,
        i + groups[g].0.len() <= table.len(),
        forall|j: int|
            0 <= j < groups[g].0.len() ==> table[i + j] == (#[trigger] groups[g].0[j], groups[g].1),
        alias_lookup(table.subrange(i + groups[g].0.len(), table.len() as int), alias)
            == grouped_alias_lookup(groups.subrange(g + 1, groups.len() as int), alias),
    ensures
        alias_lookup(table.subrange(i, table.len() as int), alias) == grouped_alias_lookup(
            groups.subrange(g, groups.len() as int),
            alias,
        ),
{
    lemma_lookup_in_group(table, groups, alias, i, g, 0);
    let rest = groups.subrange(g, groups.len() as int);
    assert(rest[0] == groups[g]);
    assert(rest.drop_first() =~= groups.subrange(g + 1, groups.len() as int));
    assert(table.subrange(i + 0, table.len() as int) == table.subrange(i, table.len() as int));
}

proof fn lemma_alias_groups_from_136(alias: Seq<char>)
    requires
        alias_lookup(boss_aliases().subrange(324, 324), alias) == grouped_alias_lookup(boss_alias_groups().subrange(146, 146), alias),
    ensures
        alias_lookup(boss_aliases().subrange(299, 324), alias) == grouped_alias_lookup(boss_alias_groups().subrange(136, 146), alias),
{
    let t = boss_aliases();
    let gs = boss_alias_groups();
    assert(t.len() == 324);
    assert(gs.len() == 146);
    assert forall|j: int| 0 <= j < gs[145].0.len() implies t[320 + j] == (#[trigger] gs[145].0[j], gs[145].1) by {
            if j == 0 {
                assert(t[320] == (gs[145].0[0], gs[145].1));
            } else if j == 1 {
                assert(t[321] == (gs[145].0[1], gs[145].1));
            } else if j == 2 {
                assert(t[322] == (gs[145].0[2], gs[145].1));
            } else if j == 3 {
                assert(t[323] == (gs[145].0[3], gs[145].1));
            }
    }
    lemma_group_step(t, gs, alias, 320, 145);
    assert forall|j: int| 0 <= j < gs[144].0.len() implies t[318 + j] == (#[trigger] gs[144].0[j], gs[144].1) by {
            if j == 0 {
                assert(t[318] == (gs[144].0[0], gs[144].1));
            } else if j == 1 {
                assert(t[319] == (gs[144].0[1], gs[144].1));
            }
    }
    lemma_group_step(t, gs, alias, 318, 144);
    assert forall|j: int| 0 <= j < gs[143].0.len() implies t[314 + j] == (#[trigger] gs[143].0[j], gs[143].1) by {
            if j == 0 {
                assert(t[314] == (gs[143].0[0], gs[143].1));
            } else if j == 1 {
                assert(t[315] == (gs[143].0[1], gs[143].1));
            } else if j == 2 {
                assert(t[316] == (gs[143].0[2], gs[143].1));
            } else if j == 3 {
                assert(t[317] == (gs[143].0[3], gs[143].1));
            }
    }
    lemma_group_step(t, gs, alias, 314, 143);
    assert forall|j: int| 0 <= j < gs[142].0.len() implies t[312 + j] == (#[trigger] gs[142].0[j], gs[142].1) by {
            if j == 0 {
                assert(t[312] == (gs[142].0[0], gs[142].1));
            } else if j == 1 {
                assert(t[313] == (gs[142].0[1], gs[142].1));
            }
    }
    lemma_group_step(t, gs, alias, 312, 142);
    assert forall|j: int| 0 <= j < gs[141].0.len() implies t[309 + j] == (#[trigger] gs[141].0[j], gs[141].1) by {
            if j == 0 {
                assert(t[309] == (gs[141].0[0], gs[141].1));
            } else if j == 1 {
                assert(t[310] == (gs[141].0[1], gs[141].1));
            } else if j == 2 {
                assert(t[311] == (gs[141].0[2], gs[141].1));
            }
    }
    lemma_group_step(t, gs, alias, 309, 141);
    assert forall|j: int| 0 <= j < gs[140].0.len() implies t[308 + j] == (#[trigger] gs[140].0[j], gs[140].1) by {
            if j == 0 {
                assert(t[308] == (gs[140].0[0], gs[140].1));
            }
    }
    lemma_group_step(t, gs, alias, 308, 140);
    assert forall|j: int| 0 <= j < gs[139].0.len() implies t[305 + j] == (#[trigger] gs[139].0[j], gs[139].1) by {
            if j == 0 {
                assert(t[305] == (gs[139].0[0], gs[139].1));
            } else if j == 1 {
                assert(t[306] == (gs[139].0[1], gs[139].1));
            } else if j == 2 {
                assert(t[307] == (gs[139].0[2], gs[139].1));
            }
    }
    lemma_group_step(t, gs, alias, 305, 139);
    assert forall|j: int| 0 <= j < gs[138].0.len() implies t[304 + j] == (#[trigger] gs[138].0[j], gs[138].1) by {
            if j == 0 {
                assert(t[304] == (gs[138].0[0], gs[138].1));
            }
    }
    lemma_group_step(t, gs, alias, 304, 138);
    assert forall|j: int| 0 <= j < gs[137].0.len() implies t[302 + j] == (#[trigger] gs[137].0[j], gs[137].1) by {
            if j == 0 {
                assert(t[302] == (gs[137].0[0], gs[137].1));
            } else if j == 1 {
                assert(t[303] == (gs[137].0[1], gs[137].1));
            }
    }
    lemma_group_step(t, gs, alias, 302, 137);
    assert forall|j: int| 0 <= j < gs[136].0.len() implies t[299 + j] == (#[trigger] gs[136].0[j], gs[136].1) by {
            if j == 0 {
                assert(t[299] == (gs[136].0[0], gs[136].1));
            } else if j == 1 {
                assert(t[300] == (gs[136].0[1], gs[136].1));
            } else if j == 2 {
                assert(t[301] == (gs[136].0[2], gs[136].1));
            }
    }
    lemma_group_step(t, gs, alias, 299, 136);
}

proof fn lemma_alias_groups_from_126(alias: Seq<char>)
    requires
        alias_lookup(boss_aliases().subrange(299, 324), alias) == grouped_alias_lookup(boss_alias_groups().subrange(136, 146), alias),
    ensures
        alias_lookup(boss_aliases().subrange(285, 324), alias) == grouped_alias_lookup(boss_alias_groups().subrange(126, 146), alias),
{
    let t = boss_aliases();
    let gs = boss_alias_groups();
    assert(t.len() == 324);
    assert(gs.len() == 146);
    assert forall|j: int| 0 <= j < gs[135].0.len() implies t[297 + j] == (#[trigger] gs[135].0[j], gs[135].1) by {
            if j == 0 {
                assert(t[297] == (gs[135].0[0], gs[135].1));
            } else if j == 1 {
                assert(t[298] == (gs[135].0[1], gs[135].1));
            }
    }
    lemma_group_step(t, gs, alias, 297, 135);
    assert forall|j: int| 0 <= j < gs[134].0.len() implies t[294 + j] == (#[trigger] gs[134].0[j], gs[134].1) by {
            if j == 0 {
                assert(t[294] == (gs[134].0[0], gs[134].1));
            } else if j == 1 {
                assert(t[295] == (gs[134].0[1], gs[134].1));
            } else if j == 2 {
                assert(t[296] == (gs[134].0[2], gs[134].1));
            }
    }
    lemma_group_step(t, gs, alias, 294, 134);
    assert forall|j: int| 0 <= j < gs[133].0.len() implies t[293 + j] == (#[trigger] gs[133].0[j], gs[133].1) by {
            if j == 0 {
                assert(t[293] == (gs[133].0[0], gs[133].1));
            }
    }
    lemma_group_step(t, gs, alias, 293, 133);
    assert forall|j: int| 0 <= j < gs[132].0.len() implies t[292 + j] == (#[trigger] gs[132].0[j], gs[132].1) by {
            if j == 0 {
                assert(t[292] == (gs[132].0[0], gs[132].1));
            }
    }
    lemma_group_step(t, gs, alias, 292, 132);
    assert forall|j: int| 0 <= j < gs[131].0.len() implies t[291 + j] == (#[trigger] gs[131].0[j], gs[131].1) by {
            if j == 0 {
                assert(t[291] == (gs[131].0[0], gs[131].1));
            }
    }
    lemma_group_step(t, gs, alias, 291, 131);
    assert forall|j: int| 0 <= j < gs[130].0.len() implies t[290 + j] == (#[trigger] gs[130].0[j], gs[130].1) by {
            if j == 0 {
                assert(t[290] == (gs[130].0[0], gs[130].1));
            }
    }
    lemma_group_step(t, gs, alias, 290, 130);
    assert forall|j: int| 0 <= j < gs[129].0.len() implies t[289 + j] == (#[trigger] gs[129].0[j], gs[129].1) by {
            if j == 0 {
                assert(t[289] == (gs[129].0[0], gs[129].1));
            }
    }
    lemma_group_step(t, gs, alias, 289, 129);
    assert forall|j: int| 0 <= j < gs[128].0.len() implies t[288 + j] == (#[trigger] gs[128].0[j], gs[128].1) by {
            if j == 0 {
                assert(t[288] == (gs[128].0[0], gs[128].1));
            }
    }
    lemma_group_step(t, gs, alias, 288, 128);
    assert forall|j: int| 0 <= j < gs[127].0.len() implies t[286 + j] == (#[trigger] gs[127].0[j], gs[127].1) by {
            if j == 0 {
                assert(t[286] == (gs[127].0[0], gs[127].1));
            } else if j == 1 {
                assert(t[287] == (gs[127].0[1], gs[127].1));
            }
    }
    lemma_group_step(t, gs, alias, 286, 127);
    assert forall|j: int| 0 <= j < gs[126].0.len() implies t[285 + j] == (#[trigger] gs[126].0[j], gs[126].1) by {
            if j == 0 {
                assert(t[285] == (gs[126].0[0], gs[126].1));
            }
    }
    lemma_group_step(t, gs, alias, 285, 126);
}

proof fn lemma_alias_groups_from_116(alias: Seq<char>)
    requires
        alias_lookup(boss_aliases().subrange(285, 324), alias) == grouped_alias_lookup(boss_alias_groups().subrange(126, 146), alias),
    ensures
        alias_lookup(boss_aliases().subrange(264, 324), alias) == grouped_alias_lookup(boss_alias_groups().subrange(116, 146), alias),
{
    let t = boss_aliases();
    let gs = boss_alias_groups();
    assert(t.len() == 324);
    assert(gs.len() == 146);
    assert forall|j: int| 0 <= j < gs[125].0.len() implies t[284 + j] == (#[trigger] gs[125].0[j], gs[125].1) by {
            if j == 0 {
                assert(t[284] == (gs[125].0[0], gs[125].1));
            }
    }
    lemma_group_step(t, gs, alias, 284, 125);
    assert forall|j: int| 0 <= j < gs[124].0.len() implies t[283 + j] == (#[trigger] gs[124].0[j], gs[124].1) by {
            if j == 0 {
                assert(t[283] == (gs[124].0[0], gs[124].1));
            }
    }
    lemma_group_step(t, gs, alias, 283, 124);
    assert forall|j: int| 0 <= j < gs[123].0.len() implies t[282 + j] == (#[trigger] gs[123].0[j], gs[123].1) by {
            if j == 0 {
                assert(t[282] == (gs[123].0[0], gs[123].1));
            }
    }
    lemma_group_step(t, gs, alias, 282, 123);
    assert forall|j: int| 0 <= j < gs[122].0.len() implies t[279 + j] == (#[trigger] gs[122].0[j], gs[122].1) by {
            if j == 0 {
                assert(t[279] == (gs[122].0[0], gs[122].1));
            } else if j == 1 {
                assert(t[280] == (gs[122].0[1], gs[122].1));
            } else if j == 2 {
                assert(t[281] == (gs[122].0[2], gs[122].1));
            }
    }
    lemma_group_step(t, gs, alias, 279, 122);
    assert forall|j: int| 0 <= j < gs[121].0.len() implies t[277 + j] == (#[trigger] gs[121].0[j], gs[121].1) by {
            if j == 0 {
                assert(t[277] == (gs[121].0[0], gs[121].1));
            } else if j == 1 {
                assert(t[278] == (gs[121].0[1], gs[121].1));
            }
    }
    lemma_group_step(t, gs, alias, 277, 121);
    assert forall|j: int| 0 <= j < gs[120].0.len() implies t[275 + j] == (#[trigger] gs[120].0[j], gs[120].1) by {
            if j == 0 {
                assert(t[275] == (gs[120].0[0], gs[120].1));
            } else if j == 1 {
                assert(t[276] == (gs[120].0[1], gs[120].1));
            }
    }
    lemma_group_step(t, gs, alias, 275, 120);
    assert forall|j: int| 0 <= j < gs[119].0.len() implies t[273 + j] == (#[trigger] gs[119].0[j], gs[119].1) by {
            if j == 0 {
                assert(t[273] == (gs[119].0[0], gs[119].1));
            } else if j == 1 {
                assert(t[274] == (gs[119].0[1], gs[119].1));
            }
    }
    lemma_group_step(t, gs, alias, 273, 119);
    assert forall|j: int| 0 <= j < gs[118].0.len() implies t[268 + j] == (#[trigger] gs[118].0[j], gs[118].1) by {
            if j == 0 {
                assert(t[268] == (gs[118].0[0], gs[118].1));
            } else if j == 1 {
                assert(t[269] == (gs[118].0[1], gs[118].1));
            } else if j == 2 {
                assert(t[270] == (gs[118].0[2], gs[118].1));
            } else if j == 3 {
                assert(t[271] == (gs[118].0[3], gs[118].1));
            } else if j == 4 {
                assert(t[272] == (gs[118].0[4], gs[118].1));
            }
    }
    lemma_group_step(t, gs, alias, 268, 118);
    assert forall|j: int| 0 <= j < gs[117].0.len() implies t[266 + j] == (#[trigger] gs[117].0[j], gs[117].1) by {
            if j == 0 {
                assert(t[266] == (gs[117].0[0], gs[117].1));
            } else if j == 1 {
                assert(t[267] == (gs[117].0[1], gs[117].1));
            }
    }
    lemma_group_step(t, gs, alias, 266, 117);
    assert forall|j: int| 0 <= j < gs[116].0.len() implies t[264 + j] == (#[trigger] gs[116].0[j], gs[116].1) by {
            if j == 0 {
                assert(t[264] == (gs[116].0[0], gs[116].1));
            } else if j == 1 {
                assert(t[265] == (gs[116].0[1], gs[116].1));
            }
    }
    lemma_group_step(t, gs, alias, 264, 116);
}

proof fn lemma_alias_groups_from_106(alias: Seq<char>)
    requires
        alias_lookup(boss_aliases().subrange(264, 324), alias) == grouped_alias_lookup(boss_alias_groups().subrange(116, 146), alias),
    ensures
        alias_lookup(boss_aliases().subrange(223, 324), alias) == grouped_alias_lookup(boss_alias_groups().subrange(106, 146), alias),
{
    let t = boss_aliases();
    let gs = boss_alias_groups();
    assert(t.len() == 324);
    assert(gs.len() == 146);
    assert forall|j: int| 0 <= j < gs[115].0.len() implies t[252 + j] == (#[trigger] gs[115].0[j], gs[115].1) by {
            if j == 0 {
                assert(t[252] == (gs[115].0[0], gs[115].1));
            } else if j == 1 {
                assert(t[253] == (gs[115].0[1], gs[115].1));
            } else if j == 2 {
                assert(t[254] == (gs[115].0[2], gs[115].1));
            } else if j == 3 {
                assert(t[255] == (gs[115].0[3], gs[115].1));
            } else if j == 4 {
                assert(t[256] == (gs[115].0[4], gs[115].1));
            } else if j == 5 {
                assert(t[257] == (gs[115].0[5], gs[115].1));
            } else if j == 6 {
                assert(t[258] == (gs[115].0[6], gs[115].1));
            } else if j == 7 {
                assert(t[259] == (gs[115].0[7], gs[115].1));
            } else if j == 8 {
                assert(t[260] == (gs[115].0[8], gs[115].1));
            } else if j == 9 {
                assert(t[261] == (gs[115].0[9], gs[115].1));
            } else if j == 10 {
                assert(t[262] == (gs[115].0[10], gs[115].1));
            } else if j == 11 {
                assert(t[263] == (gs[115].0[11], gs[115].1));
            }
    }
    lemma_group_step(t, gs, alias, 252, 115);
    assert forall|j: int| 0 <= j < gs[114].0.len() implies t[248 + j] == (#[trigger] gs[114].0[j], gs[114].1) by {
            if j == 0 {
                assert(t[248] == (gs[114].0[0], gs[114].1));
            } else if j == 1 {
                assert(t[249] == (gs[114].0[1], gs[114].1));
            } else if j == 2 {
                assert(t[250] == (gs[114].0[2], gs[114].1));
            } else if j == 3 {
                assert(t[251] == (gs[114].0[3], gs[114].1));
            }
    }
    lemma_group_step(t, gs, alias, 248, 114);
    assert forall|j: int| 0 <= j < gs[113].0.len() implies t[246 + j] == (#[trigger] gs[113].0[j], gs[113].1) by {
            if j == 0 {
                assert(t[246] == (gs[113].0[0], gs[113].1));
            } else if j == 1 {
                assert(t[247] == (gs[113].0[1], gs[113].1));
            }
    }
    lemma_group_step(t, gs, alias, 246, 113);
    assert forall|j: int| 0 <= j < gs[112].0.len() implies t[244 + j] == (#[trigger] gs[112].0[j], gs[112].1) by {
            if j == 0 {
                assert(t[244] == (gs[112].0[0], gs[112].1));
            } else if j == 1 {
                assert(t[245] == (gs[112].0[1], gs[112].1));
            }
    }
    lemma_group_step(t, gs, alias, 244, 112);
    assert forall|j: int| 0 <= j < gs[111].0.len() implies t[238 + j] == (#[trigger] gs[111].0[j], gs[111].1) by {
            if j == 0 {
                assert(t[238] == (gs[111].0[0], gs[111].1));
            } else if j == 1 {
                assert(t[239] == (gs[111].0[1], gs[111].1));
            } else if j == 2 {
                assert(t[240] == (gs[111].0[2], gs[111].1));
            } else if j == 3 {
                assert(t[241] == (gs[111].0[3], gs[111].1));
            } else if j == 4 {
                assert(t[242] == (gs[111].0[4], gs[111].1));
            } else if j == 5 {
                assert(t[243] == (gs[111].0[5], gs[111].1));
            }
    }
    lemma_group_step(t, gs, alias, 238, 111);
    assert forall|j: int| 0 <= j < gs[110].0.len() implies t[236 + j] == (#[trigger] gs[110].0[j], gs[110].1) by {
            if j == 0 {
                assert(t[236] == (gs[110].0[0], gs[110].1));
            } else if j == 1 {
                assert(t[237] == (gs[110].0[1], gs[110].1));
            }
    }
    lemma_group_step(t, gs, alias, 236, 110);
    assert forall|j: int| 0 <= j < gs[109].0.len() implies t[234 + j] == (#[trigger] gs[109].0[j], gs[109].1) by {
            if j == 0 {
                assert(t[234] == (gs[109].0[0], gs[109].1));
            } else if j == 1 {
                assert(t[235] == (gs[109].0[1], gs[109].1));
            }
    }
    lemma_group_step(t, gs, alias, 234, 109);
    assert forall|j: int| 0 <= j < gs[108].0.len() implies t[229 + j] == (#[trigger] gs[108].0[j], gs[108].1) by {
            if j == 0 {
                assert(t[229] == (gs[108].0[0], gs[108].1));
            } else if j == 1 {
                assert(t[230] == (gs[108].0[1], gs[108].1));
            } else if j == 2 {
                assert(t[231] == (gs[108].0[2], gs[108].1));
            } else if j == 3 {
                assert(t[232] == (gs[108].0[3], gs[108].1));
            } else if j == 4 {
                assert(t[233] == (gs[108].0[4], gs[108].1));
            }
    }
    lemma_group_step(t, gs, alias, 229, 108);
    assert forall|j: int| 0 <= j < gs[107].0.len() implies t[225 + j] == (#[trigger] gs[107].0[j], gs[107].1) by {
            if j == 0 {
                assert(t[225] == (gs[107].0[0], gs[107].1));
            } else if j == 1 {
                assert(t[226] == (gs[107].0[1], gs[107].1));
            } else if j == 2 {
                assert(t[227] == (gs[107].0[2], gs[107].1));
            } else if j == 3 {
                assert(t[228] == (gs[107].0[3], gs[107].1));
            }
    }
    lemma_group_step(t, gs, alias, 225, 107);
    assert forall|j: int| 0 <= j < gs[106].0.len() implies t[223 + j] == (#[trigger] gs[106].0[j], gs[106].1) by {
            if j == 0 {
                assert(t[223] == (gs[106].0[0], gs[106].1));
            } else if j == 1 {
                assert(t[224] == (gs[106].0[1], gs[106].1));
            }
    }
    lemma_group_step(t, gs, alias, 223, 106);
}

proof fn lemma_alias_groups_from_96(alias: Seq<char>)
    requires
        alias_lookup(boss_aliases().subrange(223, 324), alias) == grouped_alias_lookup(boss_alias_groups().subrange(106, 146), alias),
    ensures
        alias_lookup(boss_aliases().subrange(193, 324), alias) == grouped_alias_lookup(boss_alias_groups().subrange(96, 146), alias),
{
    let t = boss_aliases();
    let gs = boss_alias_groups();
    assert(t.len() == 324);
    assert(gs.len() == 146);
    assert forall|j: int| 0 <= j < gs[105].0.len() implies t[221 + j] == (#[trigger] gs[105].0[j], gs[105].1) by {
            if j == 0 {
                assert(t[221] == (gs[105].0[0], gs[105].1));
            } else if j == 1 {
                assert(t[222] == (gs[105].0[1], gs[105].1));
            }
    }
    lemma_group_step(t, gs, alias, 221, 105);
    assert forall|j: int| 0 <= j < gs[104].0.len() implies t[219 + j] == (#[trigger] gs[104].0[j], gs[104].1) by {
            if j == 0 {
                assert(t[219] == (gs[104].0[0], gs[104].1));
            } else if j == 1 {
                assert(t[220] == (gs[104].0[1], gs[104].1));
            }
    }
    lemma_group_step(t, gs, alias, 219, 104);
    assert forall|j: int| 0 <= j < gs[103].0.len() implies t[217 + j] == (#[trigger] gs[103].0[j], gs[103].1) by {
            if j == 0 {
                assert(t[217] == (gs[103].0[0], gs[103].1));
            } else if j == 1 {
                assert(t[218] == (gs[103].0[1], gs[103].1));
            }
    }
    lemma_group_step(t, gs, alias, 217, 103);
    assert forall|j: int| 0 <= j < gs[102].0.len() implies t[215 + j] == (#[trigger] gs[102].0[j], gs[102].1) by {
            if j == 0 {
                assert(t[215] == (gs[102].0[0], gs[102].1));
            } else if j == 1 {
                assert(t[216] == (gs[102].0[1], gs[102].1));
            }
    }
    lemma_group_step(t, gs, alias, 215, 102);
    assert forall|j: int| 0 <= j < gs[101].0.len() implies t[213 + j] == (#[trigger] gs[101].0[j], gs[101].1) by {
            if j == 0 {
                assert(t[213] == (gs[101].0[0], gs[101].1));
            } else if j == 1 {
                assert(t[214] == (gs[101].0[1], gs[101].1));
            }
    }
    lemma_group_step(t, gs, alias, 213, 101);
    assert forall|j: int| 0 <= j < gs[100].0.len() implies t[210 + j] == (#[trigger] gs[100].0[j], gs[100].1) by {
            if j == 0 {
                assert(t[210] == (gs[100].0[0], gs[100].1));
            } else if j == 1 {
                assert(t[211] == (gs[100].0[1], gs[100].1));
            } else if j == 2 {
                assert(t[212] == (gs[100].0[2], gs[100].1));
            }
    }
    lemma_group_step(t, gs, alias, 210, 100);
    assert forall|j: int| 0 <= j < gs[99].0.len() implies t[204 + j] == (#[trigger] gs[99].0[j], gs[99].1) by {
            if j == 0 {
                assert(t[204] == (gs[99].0[0], gs[99].1));
            } else if j == 1 {
                assert(t[205] == (gs[99].0[1], gs[99].1));
            } else if j == 2 {
                assert(t[206] == (gs[99].0[2], gs[99].1));
            } else if j == 3 {
                assert(t[207] == (gs[99].0[3], gs[99].1));
            } else if j == 4 {
                assert(t[208] == (gs[99].0[4], gs[99].1));
            } else if j == 5 {
                assert(t[209] == (gs[99].0[5], gs[99].1));
            }
    }
    lemma_group_step(t, gs, alias, 204, 99);
    assert forall|j: int| 0 <= j < gs[98].0.len() implies t[200 + j] == (#[trigger] gs[98].0[j], gs[98].1) by {
            if j == 0 {
                assert(t[200] == (gs[98].0[0], gs[98].1));
            } else if j == 1 {
                assert(t[201] == (gs[98].0[1], gs[98].1));
            } else if j == 2 {
                assert(t[202] == (gs[98].0[2], gs[98].1));
            } else if j == 3 {
                assert(t[203] == (gs[98].0[3], gs[98].1));
            }
    }
    lemma_group_step(t, gs, alias, 200, 98);
    assert forall|j: int| 0 <= j < gs[97].0.len() implies t[196 + j] == (#[trigger] gs[97].0[j], gs[97].1) by {
            if j == 0 {
                assert(t[196] == (gs[97].0[0], gs[97].1));
            } else if j == 1 {
                assert(t[197] == (gs[97].0[1], gs[97].1));
            } else if j == 2 {
                assert(t[198] == (gs[97].0[2], gs[97].1));
            } else if j == 3 {
                assert(t[199] == (gs[97].0[3], gs[97].1));
            }
    }
    lemma_group_step(t, gs, alias, 196, 97);
    assert forall|j: int| 0 <= j < gs[96].0.len() implies t[193 + j] == (#[trigger] gs[96].0[j], gs[96].1) by {
            if j == 0 {
                assert(t[193] == (gs[96].0[0], gs[96].1));
            } else if j == 1 {
                assert(t[194] == (gs[96].0[1], gs[96].1));
            } else if j == 2 {
                assert(t[195] == (gs[96].0[2], gs[96].1));
            }
    }
    lemma_group_step(t, gs, alias, 193, 96);
}

proof fn lemma_alias_groups_from_86(alias: Seq<char>)
    requires
        alias_lookup(boss_aliases().subrange(193, 324), alias) == grouped_alias_lookup(boss_alias_groups().subrange(96, 146), alias),
    ensures
        alias_lookup(boss_aliases().subrange(178, 324), alias) == grouped_alias_lookup(boss_alias_groups().subrange(86, 146), alias),
{
    let t = boss_aliases();
    let gs = boss_alias_groups();
    assert(t.len() == 324);
    assert(gs.len() == 146);
    assert forall|j: int| 0 <= j < gs[95].0.len() implies t[192 + j] == (#[trigger] gs[95].0[j], gs[95].1) by {
            if j == 0 {
                assert(t[192] == (gs[95].0[0], gs[95].1));
            }
    }
    lemma_group_step(t, gs, alias, 192, 95);
    assert forall|j: int| 0 <= j < gs[94].0.len() implies t[191 + j] == (#[trigger] gs[94].0[j], gs[94].1) by {
            if j == 0 {
                assert(t[191] == (gs[94].0[0], gs[94].1));
            }
    }
    lemma_group_step(t, gs, alias, 191, 94);
    assert forall|j: int| 0 <= j < gs[93].0.len() implies t[190 + j] == (#[trigger] gs[93].0[j], gs[93].1) by {
            if j == 0 {
                assert(t[190] == (gs[93].0[0], gs[93].1));
            }
    }
    lemma_group_step(t, gs, alias, 190, 93);
    assert forall|j: int| 0 <= j < gs[92].0.len() implies t[189 + j] == (#[trigger] gs[92].0[j], gs[92].1) by {
            if j == 0 {
                assert(t[189] == (gs[92].0[0], gs[92].1));
            }
    }
    lemma_group_step(t, gs, alias, 189, 92);
    assert forall|j: int| 0 <= j < gs[91].0.len() implies t[188 + j] == (#[trigger] gs[91].0[j], gs[91].1) by {
            if j == 0 {
                assert(t[188] == (gs[91].0[0], gs[91].1));
            }
    }
    lemma_group_step(t, gs, alias, 188, 91);
    assert forall|j: int| 0 <= j < gs[90].0.len() implies t[187 + j] == (#[trigger] gs[90].0[j], gs[90].1) by {
            if j == 0 {
                assert(t[187] == (gs[90].0[0], gs[90].1));
            }
    }
    lemma_group_step(t, gs, alias, 187, 90);
    assert forall|j: int| 0 <= j < gs[89].0.len() implies t[185 + j] == (#[trigger] gs[89].0[j], gs[89].1) by {
            if j == 0 {
                assert(t[185] == (gs[89].0[0], gs[89].1));
            } else if j == 1 {
                assert(t[186] == (gs[89].0[1], gs[89].1));
            }
    }
    lemma_group_step(t, gs, alias, 185, 89);
    assert forall|j: int| 0 <= j < gs[88].0.len() implies t[183 + j] == (#[trigger] gs[88].0[j], gs[88].1) by {
            if j == 0 {
                assert(t[183] == (gs[88].0[0], gs[88].1));
            } else if j == 1 {
                assert(t[184] == (gs[88].0[1], gs[88].1));
            }
    }
    lemma_group_step(t, gs, alias, 183, 88);
    assert forall|j: int| 0 <= j < gs[87].0.len() implies t[179 + j] == (#[trigger] gs[87].0[j], gs[87].1) by {
            if j == 0 {
                assert(t[179] == (gs[87].0[0], gs[87].1));
            } else if j == 1 {
                assert(t[180] == (gs[87].0[1], gs[87].1));
            } else if j == 2 {
                assert(t[181] == (gs[87].0[2], gs[87].1));
            } else if j == 3 {
                assert(t[182] == (gs[87].0[3], gs[87].1));
            }
    }
    lemma_group_step(t, gs, alias, 179, 87);
    assert forall|j: int| 0 <= j < gs[86].0.len() implies t[178 + j] == (#[trigger] gs[86].0[j], gs[86].1) by {
            if j == 0 {
                assert(t[178] == (gs[86].0[0], gs[86].1));
            }
    }
    lemma_group_step(t, gs, alias, 178, 86);
}

proof fn lemma_alias_groups_from_76(alias: Seq<char>)
    requires
        alias_lookup(boss_aliases().subrange(178, 324), alias) == grouped_alias_lookup(boss_alias_groups().subrange(86, 146), alias),
    ensures
        alias_lookup(boss_aliases().subrange(164, 324), alias) == grouped_alias_lookup(boss_alias_groups().subrange(76, 146), alias),
{
    let t = boss_aliases();
    let gs = boss_alias_groups();
    assert(t.len() == 324);
    assert(gs.len() == 146);
    assert forall|j: int| 0 <= j < gs[85].0.len() implies t[177 + j] == (#[trigger] gs[85].0[j], gs[85].1) by {
            if j == 0 {
                assert(t[177] == (gs[85].0[0], gs[85].1));
            }
    }
    lemma_group_step(t, gs, alias, 177, 85);
    assert forall|j: int| 0 <= j < gs[84].0.len() implies t[176 + j] == (#[trigger] gs[84].0[j], gs[84].1) by {
            if j == 0 {
                assert(t[176] == (gs[84].0[0], gs[84].1));
            }
    }
    lemma_group_step(t, gs, alias, 176, 84);
    assert forall|j: int| 0 <= j < gs[83].0.len() implies t[175 + j] == (#[trigger] gs[83].0[j], gs[83].1) by {
            if j == 0 {
                assert(t[175] == (gs[83].0[0], gs[83].1));
            }
    }
    lemma_group_step(t, gs, alias, 175, 83);
    assert forall|j: int| 0 <= j < gs[82].0.len() implies t[174 + j] == (#[trigger] gs[82].0[j], gs[82].1) by {
            if j == 0 {
                assert(t[174] == (gs[82].0[0], gs[82].1));
            }
    }
    lemma_group_step(t, gs, alias, 174, 82);
    assert forall|j: int| 0 <= j < gs[81].0.len() implies t[173 + j] == (#[trigger] gs[81].0[j], gs[81].1) by {
            if j == 0 {
                assert(t[173] == (gs[81].0[0], gs[81].1));
            }
    }
    lemma_group_step(t, gs, alias, 173, 81);
    assert forall|j: int| 0 <= j < gs[80].0.len() implies t[171 + j] == (#[trigger] gs[80].0[j], gs[80].1) by {
            if j == 0 {
                assert(t[171] == (gs[80].0[0], gs[80].1));
            } else if j == 1 {
                assert(t[172] == (gs[80].0[1], gs[80].1));
            }
    }
    lemma_group_step(t, gs, alias, 171, 80);
    assert forall|j: int| 0 <= j < gs[79].0.len() implies t[169 + j] == (#[trigger] gs[79].0[j], gs[79].1) by {
            if j == 0 {
                assert(t[169] == (gs[79].0[0], gs[79].1));
            } else if j == 1 {
                assert(t[170] == (gs[79].0[1], gs[79].1));
            }
    }
    lemma_group_step(t, gs, alias, 169, 79);
    assert forall|j: int| 0 <= j < gs[78].0.len() implies t[166 + j] == (#[trigger] gs[78].0[j], gs[78].1) by {
            if j == 0 {
                assert(t[166] == (gs[78].0[0], gs[78].1));
            } else if j == 1 {
                assert(t[167] == (gs[78].0[1], gs[78].1));
            } else if j == 2 {
                assert(t[168] == (gs[78].0[2], gs[78].1));
            }
    }
    lemma_group_step(t, gs, alias, 166, 78);
    assert forall|j: int| 0 <= j < gs[77].0.len() implies t[165 + j] == (#[trigger] gs[77].0[j], gs[77].1) by {
            if j == 0 {
                assert(t[165] == (gs[77].0[0], gs[77].1));
            }
    }
    lemma_group_step(t, gs, alias, 165, 77);
    assert forall|j: int| 0 <= j < gs[76].0.len() implies t[164 + j] == (#[trigger] gs[76].0[j], gs[76].1) by {
            if j == 0 {
                assert(t[164] == (gs[76].0[0], gs[76].1));
            }
    }
    lemma_group_step(t, gs, alias, 164, 76);
}

proof fn lemma_alias_groups_from_66(alias: Seq<char>)
    requires
        alias_lookup(boss_aliases().subrange(164, 324), alias) == grouped_alias_lookup(boss_alias_groups().subrange(76, 146), alias),
    ensures
        alias_lookup(boss_aliases().subrange(147, 324), alias) == grouped_alias_lookup(boss_alias_groups().subrange(66, 146), alias),
{
    let t = boss_aliases();
    let gs = boss_alias_groups();
    assert(t.len() == 324);
    assert(gs.len() == 146);
    assert forall|j: int| 0 <= j < gs[75].0.len() implies t[163 + j] == (#[trigger] gs[75].0[j], gs[75].1) by {
            if j == 0 {
                assert(t[163] == (gs[75].0[0], gs[75].1));
            }
    }
    lemma_group_step(t, gs, alias, 163, 75);
    assert forall|j: int| 0 <= j < gs[74].0.len() implies t[162 + j] == (#[trigger] gs[74].0[j], gs[74].1) by {
            if j == 0 {
                assert(t[162] == (gs[74].0[0], gs[74].1));
            }
    }
    lemma_group_step(t, gs, alias, 162, 74);
    assert forall|j: int| 0 <= j < gs[73].0.len() implies t[161 + j] == (#[trigger] gs[73].0[j], gs[73].1) by {
            if j == 0 {
                assert(t[161] == (gs[73].0[0], gs[73].1));
            }
    }
    lemma_group_step(t, gs, alias, 161, 73);
    assert forall|j: int| 0 <= j < gs[72].0.len() implies t[160 + j] == (#[trigger] gs[72].0[j], gs[72].1) by {
            if j == 0 {
                assert(t[160] == (gs[72].0[0], gs[72].1));
            }
    }
    lemma_group_step(t, gs, alias, 160, 72);
    assert forall|j: int| 0 <= j < gs[71].0.len() implies t[158 + j] == (#[trigger] gs[71].0[j], gs[71].1) by {
            if j == 0 {
                assert(t[158] == (gs[71].0[0], gs[71].1));
            } else if j == 1 {
                assert(t[159] == (gs[71].0[1], gs[71].1));
            }
    }
    lemma_group_step(t, gs, alias, 158, 71);
    assert forall|j: int| 0 <= j < gs[70].0.len() implies t[156 + j] == (#[trigger] gs[70].0[j], gs[70].1) by {
            if j == 0 {
                assert(t[156] == (gs[70].0[0], gs[70].1));
            } else if j == 1 {
                assert(t[157] == (gs[70].0[1], gs[70].1));
            }
    }
    lemma_group_step(t, gs, alias, 156, 70);
    assert forall|j: int| 0 <= j < gs[69].0.len() implies t[150 + j] == (#[trigger] gs[69].0[j], gs[69].1) by {
            if j == 0 {
                assert(t[150] == (gs[69].0[0], gs[69].1));
            } else if j == 1 {
                assert(t[151] == (gs[69].0[1], gs[69].1));
            } else if j == 2 {
                assert(t[152] == (gs[69].0[2], gs[69].1));
            } else if j == 3 {
                assert(t[153] == (gs[69].0[3], gs[69].1));
            } else if j == 4 {
                assert(t[154] == (gs[69].0[4], gs[69].1));
            } else if j == 5 {
                assert(t[155] == (gs[69].0[5], gs[69].1));
            }
    }
    lemma_group_step(t, gs, alias, 150, 69);
    assert forall|j: int| 0 <= j < gs[68].0.len() implies t[149 + j] == (#[trigger] gs[68].0[j], gs[68].1) by {
            if j == 0 {
                assert(t[149] == (gs[68].0[0], gs[68].1));
            }
    }
    lemma_group_step(t, gs, alias, 149, 68);
    assert forall|j: int| 0 <= j < gs[67].0.len() implies t[148 + j] == (#[trigger] gs[67].0[j], gs[67].1) by {
            if j == 0 {
                assert(t[148] == (gs[67].0[0], gs[67].1));
            }
    }
    lemma_group_step(t, gs, alias, 148, 67);
    assert forall|j: int| 0 <= j < gs[66].0.len() implies t[147 + j] == (#[trigger] gs[66].0[j], gs[66].1) by {
            if j == 0 {
                assert(t[147] == (gs[66].0[0], gs[66].1));
            }
    }
    lemma_group_step(t, gs, alias, 147, 66);
}

proof fn lemma_alias_groups_from_56(alias: Seq<char>)
    requires
        alias_lookup(boss_aliases().subrange(147, 324), alias) == grouped_alias_lookup(boss_alias_groups().subrange(66, 146), alias),
    ensures
        alias_lookup(boss_aliases().subrange(117, 324), alias) == grouped_alias_lookup(boss_alias_groups().subrange(56, 146), alias),
{
    let t = boss_aliases();
    let gs = boss_alias_groups();
    assert(t.len() == 324);
    assert(gs.len() == 146);
    assert forall|j: int| 0 <= j < gs[65].0.len() implies t[145 + j] == (#[trigger] gs[65].0[j], gs[65].1) by {
            if j == 0 {
                assert(t[145] == (gs[65].0[0], gs[65].1));
            } else if j == 1 {
                assert(t[146] == (gs[65].0[1], gs[65].1));
            }
    }
    lemma_group_step(t, gs, alias, 145, 65);
    assert forall|j: int| 0 <= j < gs[64].0.len() implies t[143 + j] == (#[trigger] gs[64].0[j], gs[64].1) by {
            if j == 0 {
                assert(t[143] == (gs[64].0[0], gs[64].1));
            } else if j == 1 {
                assert(t[144] == (gs[64].0[1], gs[64].1));
            }
    }
    lemma_group_step(t, gs, alias, 143, 64);
    assert forall|j: int| 0 <= j < gs[63].0.len() implies t[137 + j] == (#[trigger] gs[63].0[j], gs[63].1) by {
            if j == 0 {
                assert(t[137] == (gs[63].0[0], gs[63].1));
            } else if j == 1 {
                assert(t[138] == (gs[63].0[1], gs[63].1));
            } else if j == 2 {
                assert(t[139] == (gs[63].0[2], gs[63].1));
            } else if j == 3 {
                assert(t[140] == (gs[63].0[3], gs[63].1));
            } else if j == 4 {
                assert(t[141] == (gs[63].0[4], gs[63].1));
            } else if j == 5 {
                assert(t[142] == (gs[63].0[5], gs[63].1));
            }
    }
    lemma_group_step(t, gs, alias, 137, 63);
    assert forall|j: int| 0 <= j < gs[62].0.len() implies t[129 + j] == (#[trigger] gs[62].0[j], gs[62].1) by {
            if j == 0 {
                assert(t[129] == (gs[62].0[0], gs[62].1));
            } else if j == 1 {
                assert(t[130] == (gs[62].0[1], gs[62].1));
            } else if j == 2 {
                assert(t[131] == (gs[62].0[2], gs[62].1));
            } else if j == 3 {
                assert(t[132] == (gs[62].0[3], gs[62].1));
            } else if j == 4 {
                assert(t[133] == (gs[62].0[4], gs[62].1));
            } else if j == 5 {
                assert(t[134] == (gs[62].0[5], gs[62].1));
            } else if j == 6 {
                assert(t[135] == (gs[62].0[6], gs[62].1));
            } else if j == 7 {
                assert(t[136] == (gs[62].0[7], gs[62].1));
            }
    }
    lemma_group_step(t, gs, alias, 129, 62);
    assert forall|j: int| 0 <= j < gs[61].0.len() implies t[128 + j] == (#[trigger] gs[61].0[j], gs[61].1) by {
            if j == 0 {
                assert(t[128] == (gs[61].0[0], gs[61].1));
            }
    }
    lemma_group_step(t, gs, alias, 128, 61);
    assert forall|j: int| 0 <= j < gs[60].0.len() implies t[127 + j] == (#[trigger] gs[60].0[j], gs[60].1) by {
            if j == 0 {
                assert(t[127] == (gs[60].0[0], gs[60].1));
            }
    }
    lemma_group_step(t, gs, alias, 127, 60);
    assert forall|j: int| 0 <= j < gs[59].0.len() implies t[126 + j] == (#[trigger] gs[59].0[j], gs[59].1) by {
            if j == 0 {
                assert(t[126] == (gs[59].0[0], gs[59].1));
            }
    }
    lemma_group_step(t, gs, alias, 126, 59);
    assert forall|j: int| 0 <= j < gs[58].0.len() implies t[124 + j] == (#[trigger] gs[58].0[j], gs[58].1) by {
            if j == 0 {
                assert(t[124] == (gs[58].0[0], gs[58].1));
            } else if j == 1 {
                assert(t[125] == (gs[58].0[1], gs[58].1));
            }
    }
    lemma_group_step(t, gs, alias, 124, 58);
    assert forall|j: int| 0 <= j < gs[57].0.len() implies t[122 + j] == (#[trigger] gs[57].0[j], gs[57].1) by {
            if j == 0 {
                assert(t[122] == (gs[57].0[0], gs[57].1));
            } else if j == 1 {
                assert(t[123] == (gs[57].0[1], gs[57].1));
            }
    }
    lemma_group_step(t, gs, alias, 122, 57);
    assert forall|j: int| 0 <= j < gs[56].0.len() implies t[117 + j] == (#[trigger] gs[56].0[j], gs[56].1) by {
            if j == 0 {
                assert(t[117] == (gs[56].0[0], gs[56].1));
            } else if j == 1 {
                assert(t[118] == (gs[56].0[1], gs[56].1));
            } else if j == 2 {
                assert(t[119] == (gs[56].0[2], gs[56].1));
            } else if j == 3 {
                assert(t[120] == (gs[56].0[3], gs[56].1));
            } else if j == 4 {
                assert(t[121] == (gs[56].0[4], gs[56].1));
            }
    }
    lemma_group_step(t, gs, alias, 117, 56);
}

proof fn lemma_alias_groups_from_46(alias: Seq<char>)
    requires
        alias_lookup(boss_aliases().subrange(117, 324), alias) == grouped_alias_lookup(boss_alias_groups().subrange(56, 146), alias),
    ensures
        alias_lookup(boss_aliases().subrange(93, 324), alias) == grouped_alias_lookup(boss_alias_groups().subrange(46, 146), alias),
{
    let t = boss_aliases();
    let gs = boss_alias_groups();
    assert(t.len() == 324);
    assert(gs.len() == 146);
    assert forall|j: int| 0 <= j < gs[55].0.len() implies t[115 + j] == (#[trigger] gs[55].0[j], gs[55].1) by {
            if j == 0 {
                assert(t[115] == (gs[55].0[0], gs[55].1));
            } else if j == 1 {
                assert(t[116] == (gs[55].0[1], gs[55].1));
            }
    }
    lemma_group_step(t, gs, alias, 115, 55);
    assert forall|j: int| 0 <= j < gs[54].0.len() implies t[106 + j] == (#[trigger] gs[54].0[j], gs[54].1) by {
            if j == 0 {
                assert(t[106] == (gs[54].0[0], gs[54].1));
            } else if j == 1 {
                assert(t[107] == (gs[54].0[1], gs[54].1));
            } else if j == 2 {
                assert(t[108] == (gs[54].0[2], gs[54].1));
            } else if j == 3 {
                assert(t[109] == (gs[54].0[3], gs[54].1));
            } else if j == 4 {
                assert(t[110] == (gs[54].0[4], gs[54].1));
            } else if j == 5 {
                assert(t[111] == (gs[54].0[5], gs[54].1));
            } else if j == 6 {
                assert(t[112] == (gs[54].0[6], gs[54].1));
            } else if j == 7 {
                assert(t[113] == (gs[54].0[7], gs[54].1));
            } else if j == 8 {
                assert(t[114] == (gs[54].0[8], gs[54].1));
            }
    }
    lemma_group_step(t, gs, alias, 106, 54);
    assert forall|j: int| 0 <= j < gs[53].0.len() implies t[100 + j] == (#[trigger] gs[53].0[j], gs[53].1) by {
            if j == 0 {
                assert(t[100] == (gs[53].0[0], gs[53].1));
            } else if j == 1 {
                assert(t[101] == (gs[53].0[1], gs[53].1));
            } else if j == 2 {
                assert(t[102] == (gs[53].0[2], gs[53].1));
            } else if j == 3 {
                assert(t[103] == (gs[53].0[3], gs[53].1));
            } else if j == 4 {
                assert(t[104] == (gs[53].0[4], gs[53].1));
            } else if j == 5 {
                assert(t[105] == (gs[53].0[5], gs[53].1));
            }
    }
    lemma_group_step(t, gs, alias, 100, 53);
    assert forall|j: int| 0 <= j < gs[52].0.len() implies t[99 + j] == (#[trigger] gs[52].0[j], gs[52].1) by {
            if j == 0 {
                assert(t[99] == (gs[52].0[0], gs[52].1));
            }
    }
    lemma_group_step(t, gs, alias, 99, 52);
    assert forall|j: int| 0 <= j < gs[51].0.len() implies t[98 + j] == (#[trigger] gs[51].0[j], gs[51].1) by {
            if j == 0 {
                assert(t[98] == (gs[51].0[0], gs[51].1));
            }
    }
    lemma_group_step(t, gs, alias, 98, 51);
    assert forall|j: int| 0 <= j < gs[50].0.len() implies t[97 + j] == (#[trigger] gs[50].0[j], gs[50].1) by {
            if j == 0 {
                assert(t[97] == (gs[50].0[0], gs[50].1));
            }
    }
    lemma_group_step(t, gs, alias, 97, 50);
    assert forall|j: int| 0 <= j < gs[49].0.len() implies t[96 + j] == (#[trigger] gs[49].0[j], gs[49].1) by {
            if j == 0 {
                assert(t[96] == (gs[49].0[0], gs[49].1));
            }
    }
    lemma_group_step(t, gs, alias, 96, 49);
    assert forall|j: int| 0 <= j < gs[48].0.len() implies t[95 + j] == (#[trigger] gs[48].0[j], gs[48].1) by {
            if j == 0 {
                assert(t[95] == (gs[48].0[0], gs[48].1));
            }
    }
    lemma_group_step(t, gs, alias, 95, 48);
    assert forall|j: int| 0 <= j < gs[47].0.len() implies t[94 + j] == (#[trigger] gs[47].0[j], gs[47].1) by {
            if j == 0 {
                assert(t[94] == (gs[47].0[0], gs[47].1));
            }
    }
    lemma_group_step(t, gs, alias, 94, 47);
    assert forall|j: int| 0 <= j < gs[46].0.len() implies t[93 + j] == (#[trigger] gs[46].0[j], gs[46].1) by {
            if j == 0 {
                assert(t[93] == (gs[46].0[0], gs[46].1));
            }
    }
    lemma_group_step(t, gs, alias, 93, 46);
}

proof fn lemma_alias_groups_from_36(alias: Seq<char>)
    requires
        alias_lookup(boss_aliases().subrange(93, 324), alias) == grouped_alias_lookup(boss_alias_groups().subrange(46, 146), alias),
    ensures
        alias_lookup(boss_aliases().subrange(61, 324), alias) == grouped_alias_lookup(boss_alias_groups().subrange(36, 146), alias),
{
    let t = boss_aliases();
    let gs = boss_alias_groups();
    assert(t.len() == 324);
    assert(gs.len() == 146);
    assert forall|j: int| 0 <= j < gs[45].0.len() implies t[92 + j] == (#[trigger] gs[45].0[j], gs[45].1) by {
            if j == 0 {
                assert(t[92] == (gs[45].0[0], gs[45].1));
            }
    }
    lemma_group_step(t, gs, alias, 92, 45);
    assert forall|j: int| 0 <= j < gs[44].0.len() implies t[90 + j] == (#[trigger] gs[44].0[j], gs[44].1) by {
            if j == 0 {
                assert(t[90] == (gs[44].0[0], gs[44].1));
            } else if j == 1 {
                assert(t[91] == (gs[44].0[1], gs[44].1));
            }
    }
    lemma_group_step(t, gs, alias, 90, 44);
    assert forall|j: int| 0 <= j < gs[43].0.len() implies t[88 + j] == (#[trigger] gs[43].0[j], gs[43].1) by {
            if j == 0 {
                assert(t[88] == (gs[43].0[0], gs[43].1));
            } else if j == 1 {
                assert(t[89] == (gs[43].0[1], gs[43].1));
            }
    }
    lemma_group_step(t, gs, alias, 88, 43);
    assert forall|j: int| 0 <= j < gs[42].0.len() implies t[81 + j] == (#[trigger] gs[42].0[j], gs[42].1) by {
            if j == 0 {
                assert(t[81] == (gs[42].0[0], gs[42].1));
            } else if j == 1 {
                assert(t[82] == (gs[42].0[1], gs[42].1));
            } else if j == 2 {
                assert(t[83] == (gs[42].0[2], gs[42].1));
            } else if j == 3 {
                assert(t[84] == (gs[42].0[3], gs[42].1));
            } else if j == 4 {
                assert(t[85] == (gs[42].0[4], gs[42].1));
            } else if j == 5 {
                assert(t[86] == (gs[42].0[5], gs[42].1));
            } else if j == 6 {
                assert(t[87] == (gs[42].0[6], gs[42].1));
            }
    }
    lemma_group_step(t, gs, alias, 81, 42);
    assert forall|j: int| 0 <= j < gs[41].0.len() implies t[79 + j] == (#[trigger] gs[41].0[j], gs[41].1) by {
            if j == 0 {
                assert(t[79] == (gs[41].0[0], gs[41].1));
            } else if j == 1 {
                assert(t[80] == (gs[41].0[1], gs[41].1));
            }
    }
    lemma_group_step(t, gs, alias, 79, 41);
    assert forall|j: int| 0 <= j < gs[40].0.len() implies t[70 + j] == (#[trigger] gs[40].0[j], gs[40].1) by {
            if j == 0 {
                assert(t[70] == (gs[40].0[0], gs[40].1));
            } else if j == 1 {
                assert(t[71] == (gs[40].0[1], gs[40].1));
            } else if j == 2 {
                assert(t[72] == (gs[40].0[2], gs[40].1));
            } else if j == 3 {
                assert(t[73] == (gs[40].0[3], gs[40].1));
            } else if j == 4 {
                assert(t[74] == (gs[40].0[4], gs[40].1));
            } else if j == 5 {
                assert(t[75] == (gs[40].0[5], gs[40].1));
            } else if j == 6 {
                assert(t[76] == (gs[40].0[6], gs[40].1));
            } else if j == 7 {
                assert(t[77] == (gs[40].0[7], gs[40].1));
            } else if j == 8 {
                assert(t[78] == (gs[40].0[8], gs[40].1));
            }
    }
    lemma_group_step(t, gs, alias, 70, 40);
    assert forall|j: int| 0 <= j < gs[39].0.len() implies t[64 + j] == (#[trigger] gs[39].0[j], gs[39].1) by {
            if j == 0 {
                assert(t[64] == (gs[39].0[0], gs[39].1));
            } else if j == 1 {
                assert(t[65] == (gs[39].0[1], gs[39].1));
            } else if j == 2 {
                assert(t[66] == (gs[39].0[2], gs[39].1));
            } else if j == 3 {
                assert(t[67] == (gs[39].0[3], gs[39].1));
            } else if j == 4 {
                assert(t[68] == (gs[39].0[4], gs[39].1));
            } else if j == 5 {
                assert(t[69] == (gs[39].0[5], gs[39].1));
            }
    }
    lemma_group_step(t, gs, alias, 64, 39);
    assert forall|j: int| 0 <= j < gs[38].0.len() implies t[63 + j] == (#[trigger] gs[38].0[j], gs[38].1) by {
            if j == 0 {
                assert(t[63] == (gs[38].0[0], gs[38].1));
            }
    }
    lemma_group_step(t, gs, alias, 63, 38);
    assert forall|j: int| 0 <= j < gs[37].0.len() implies t[62 + j] == (#[trigger] gs[37].0[j], gs[37].1) by {
            if j == 0 {
                assert(t[62] == (gs[37].0[0], gs[37].1));
            }
    }
    lemma_group_step(t, gs, alias, 62, 37);
    assert forall|j: int| 0 <= j < gs[36].0.len() implies t[61 + j] == (#[trigger] gs[36].0[j], gs[36].1) by {
            if j == 0 {
                assert(t[61] == (gs[36].0[0], gs[36].1));
            }
    }
    lemma_group_step(t, gs, alias, 61, 36);
}

proof fn lemma_alias_groups_from_26(alias: Seq<char>)
    requires
        alias_lookup(boss_aliases().subrange(61, 324), alias) == grouped_alias_lookup(boss_alias_groups().subrange(36, 146), alias),
    ensures
        alias_lookup(boss_aliases().subrange(45, 324), alias) == grouped_alias_lookup(boss_alias_groups().subrange(26, 146), alias),
{
    let t = boss_aliases();
    let gs = boss_alias_groups();
    assert(t.len() == 324);
    assert(gs.len() == 146);
    assert forall|j: int| 0 <= j < gs[35].0.len() implies t[60 + j] == (#[trigger] gs[35].0[j], gs[35].1) by {
            if j == 0 {
                assert(t[60] == (gs[35].0[0], gs[35].1));
            }
    }
    lemma_group_step(t, gs, alias, 60, 35);
    assert forall|j: int| 0 <= j < gs[34].0.len() implies t[59 + j] == (#[trigger] gs[34].0[j], gs[34].1) by {
            if j == 0 {
                assert(t[59] == (gs[34].0[0], gs[34].1));
            }
    }
    lemma_group_step(t, gs, alias, 59, 34);
    assert forall|j: int| 0 <= j < gs[33].0.len() implies t[58 + j] == (#[trigger] gs[33].0[j], gs[33].1) by {
            if j == 0 {
                assert(t[58] == (gs[33].0[0], gs[33].1));
            }
    }
    lemma_group_step(t, gs, alias, 58, 33);
    assert forall|j: int| 0 <= j < gs[32].0.len() implies t[57 + j] == (#[trigger] gs[32].0[j], gs[32].1) by {
            if j == 0 {
                assert(t[57] == (gs[32].0[0], gs[32].1));
            }
    }
    lemma_group_step(t, gs, alias, 57, 32);
    assert forall|j: int| 0 <= j < gs[31].0.len() implies t[56 + j] == (#[trigger] gs[31].0[j], gs[31].1) by {
            if j == 0 {
                assert(t[56] == (gs[31].0[0], gs[31].1));
            }
    }
    lemma_group_step(t, gs, alias, 56, 31);
    assert forall|j: int| 0 <= j < gs[30].0.len() implies t[54 + j] == (#[trigger] gs[30].0[j], gs[30].1) by {
            if j == 0 {
                assert(t[54] == (gs[30].0[0], gs[30].1));
            } else if j == 1 {
                assert(t[55] == (gs[30].0[1], gs[30].1));
            }
    }
    lemma_group_step(t, gs, alias, 54, 30);
    assert forall|j: int| 0 <= j < gs[29].0.len() implies t[52 + j] == (#[trigger] gs[29].0[j], gs[29].1) by {
            if j == 0 {
                assert(t[52] == (gs[29].0[0], gs[29].1));
            } else if j == 1 {
                assert(t[53] == (gs[29].0[1], gs[29].1));
            }
    }
    lemma_group_step(t, gs, alias, 52, 29);
    assert forall|j: int| 0 <= j < gs[28].0.len() implies t[47 + j] == (#[trigger] gs[28].0[j], gs[28].1) by {
            if j == 0 {
                assert(t[47] == (gs[28].0[0], gs[28].1));
            } else if j == 1 {
                assert(t[48] == (gs[28].0[1], gs[28].1));
            } else if j == 2 {
                assert(t[49] == (gs[28].0[2], gs[28].1));
            } else if j == 3 {
                assert(t[50] == (gs[28].0[3], gs[28].1));
            } else if j == 4 {
                assert(t[51] == (gs[28].0[4], gs[28].1));
            }
    }
    lemma_group_step(t, gs, alias, 47, 28);
    assert forall|j: int| 0 <= j < gs[27].0.len() implies t[46 + j] == (#[trigger] gs[27].0[j], gs[27].1) by {
            if j == 0 {
                assert(t[46] == (gs[27].0[0], gs[27].1));
            }
    }
    lemma_group_step(t, gs, alias, 46, 27);
    assert forall|j: int| 0 <= j < gs[26].0.len() implies t[45 + j] == (#[trigger] gs[26].0[j], gs[26].1) by {
            if j == 0 {
                assert(t[45] == (gs[26].0[0], gs[26].1));
            }
    }
    lemma_group_step(t, gs, alias, 45, 26);
}

proof fn lemma_alias_groups_from_16(alias: Seq<char>)
    requires
        alias_lookup(boss_aliases().subrange(45, 324), alias) == grouped_alias_lookup(boss_alias_groups().subrange(26, 146), alias),
    ensures
        alias_lookup(boss_aliases().subrange(23, 324), alias) == grouped_alias_lookup(boss_alias_groups().subrange(16, 146), alias),
{
    let t = boss_aliases();
    let gs = boss_alias_groups();
    assert(t.len() == 324);
    assert(gs.len() == 146);
    assert forall|j: int| 0 <= j < gs[25].0.len() implies t[44 + j] == (#[trigger] gs[25].0[j], gs[25].1) by {
            if j == 0 {
                assert(t[44] == (gs[25].0[0], gs[25].1));
            }
    }
    lemma_group_step(t, gs, alias, 44, 25);
    assert forall|j: int| 0 <= j < gs[24].0.len() implies t[43 + j] == (#[trigger] gs[24].0[j], gs[24].1) by {
            if j == 0 {
                assert(t[43] == (gs[24].0[0], gs[24].1));
            }
    }
    lemma_group_step(t, gs, alias, 43, 24);
    assert forall|j: int| 0 <= j < gs[23].0.len() implies t[42 + j] == (#[trigger] gs[23].0[j], gs[23].1) by {
            if j == 0 {
                assert(t[42] == (gs[23].0[0], gs[23].1));
            }
    }
    lemma_group_step(t, gs, alias, 42, 23);
    assert forall|j: int| 0 <= j < gs[22].0.len() implies t[41 + j] == (#[trigger] gs[22].0[j], gs[22].1) by {
            if j == 0 {
                assert(t[41] == (gs[22].0[0], gs[22].1));
            }
    }
    lemma_group_step(t, gs, alias, 41, 22);
    assert forall|j: int| 0 <= j < gs[21].0.len() implies t[38 + j] == (#[trigger] gs[21].0[j], gs[21].1) by {
            if j == 0 {
                assert(t[38] == (gs[21].0[0], gs[21].1));
            } else if j == 1 {
                assert(t[39] == (gs[21].0[1], gs[21].1));
            } else if j == 2 {
                assert(t[40] == (gs[21].0[2], gs[21].1));
            }
    }
    lemma_group_step(t, gs, alias, 38, 21);
    assert forall|j: int| 0 <= j < gs[20].0.len() implies t[34 + j] == (#[trigger] gs[20].0[j], gs[20].1) by {
            if j == 0 {
                assert(t[34] == (gs[20].0[0], gs[20].1));
            } else if j == 1 {
                assert(t[35] == (gs[20].0[1], gs[20].1));
            } else if j == 2 {
                assert(t[36] == (gs[20].0[2], gs[20].1));
            } else if j == 3 {
                assert(t[37] == (gs[20].0[3], gs[20].1));
            }
    }
    lemma_group_step(t, gs, alias, 34, 20);
    assert forall|j: int| 0 <= j < gs[19].0.len() implies t[30 + j] == (#[trigger] gs[19].0[j], gs[19].1) by {
            if j == 0 {
                assert(t[30] == (gs[19].0[0], gs[19].1));
            } else if j == 1 {
                assert(t[31] == (gs[19].0[1], gs[19].1));
            } else if j == 2 {
                assert(t[32] == (gs[19].0[2], gs[19].1));
            } else if j == 3 {
                assert(t[33] == (gs[19].0[3], gs[19].1));
            }
    }
    lemma_group_step(t, gs, alias, 30, 19);
    assert forall|j: int| 0 <= j < gs[18].0.len() implies t[26 + j] == (#[trigger] gs[18].0[j], gs[18].1) by {
            if j == 0 {
                assert(t[26] == (gs[18].0[0], gs[18].1));
            } else if j == 1 {
                assert(t[27] == (gs[18].0[1], gs[18].1));
            } else if j == 2 {
                assert(t[28] == (gs[18].0[2], gs[18].1));
            } else if j == 3 {
                assert(t[29] == (gs[18].0[3], gs[18].1));
            }
    }
    lemma_group_step(t, gs, alias, 26, 18);
    assert forall|j: int| 0 <= j < gs[17].0.len() implies t[25 + j] == (#[trigger] gs[17].0[j], gs[17].1) by {
            if j == 0 {
                assert(t[25] == (gs[17].0[0], gs[17].1));
            }
    }
    lemma_group_step(t, gs, alias, 25, 17);
    assert forall|j: int| 0 <= j < gs[16].0.len() implies t[23 + j] == (#[trigger] gs[16].0[j], gs[16].1) by {
            if j == 0 {
                assert(t[23] == (gs[16].0[0], gs[16].1));
            } else if j == 1 {
                assert(t[24] == (gs[16].0[1], gs[16].1));
            }
    }
    lemma_group_step(t, gs, alias, 23, 16);
}

proof fn lemma_alias_groups_from_6(alias: Seq<char>)
    requires
        alias_lookup(boss_aliases().subrange(23, 324), alias) == grouped_alias_lookup(boss_alias_groups().subrange(16, 146), alias),
    ensures
        alias_lookup(boss_aliases().subrange(11, 324), alias) == grouped_alias_lookup(boss_alias_groups().subrange(6, 146), alias),
{
    let t = boss_aliases();
    let gs = boss_alias_groups();
    assert(t.len() == 324);
    assert(gs.len() == 146);
    assert forall|j: int| 0 <= j < gs[15].0.len() implies t[22 + j] == (#[trigger] gs[15].0[j], gs[15].1) by {
            if j == 0 {
                assert(t[22] == (gs[15].0[0], gs[15].1));
            }
    }
    lemma_group_step(t, gs, alias, 22, 15);
    assert forall|j: int| 0 <= j < gs[14].0.len() implies t[20 + j] == (#[trigger] gs[14].0[j], gs[14].1) by {
            if j == 0 {
                assert(t[20] == (gs[14].0[0], gs[14].1));
            } else if j == 1 {
                assert(t[21] == (gs[14].0[1], gs[14].1));
            }
    }
    lemma_group_step(t, gs, alias, 20, 14);
    assert forall|j: int| 0 <= j < gs[13].0.len() implies t[19 + j] == (#[trigger] gs[13].0[j], gs[13].1) by {
            if j == 0 {
                assert(t[19] == (gs[13].0[0], gs[13].1));
            }
    }
    lemma_group_step(t, gs, alias, 19, 13);
    assert forall|j: int| 0 <= j < gs[12].0.len() implies t[18 + j] == (#[trigger] gs[12].0[j], gs[12].1) by {
            if j == 0 {
                assert(t[18] == (gs[12].0[0], gs[12].1));
            }
    }
    lemma_group_step(t, gs, alias, 18, 12);
    assert forall|j: int| 0 <= j < gs[11].0.len() implies t[17 + j] == (#[trigger] gs[11].0[j], gs[11].1) by {
            if j == 0 {
                assert(t[17] == (gs[11].0[0], gs[11].1));
            }
    }
    lemma_group_step(t, gs, alias, 17, 11);
    assert forall|j: int| 0 <= j < gs[10].0.len() implies t[16 + j] == (#[trigger] gs[10].0[j], gs[10].1) by {
            if j == 0 {
                assert(t[16] == (gs[10].0[0], gs[10].1));
            }
    }
    lemma_group_step(t, gs, alias, 16, 10);
    assert forall|j: int| 0 <= j < gs[9].0.len() implies t[14 + j] == (#[trigger] gs[9].0[j], gs[9].1) by {
            if j == 0 {
                assert(t[14] == (gs[9].0[0], gs[9].1));
            } else if j == 1 {
                assert(t[15] == (gs[9].0[1], gs[9].1));
            }
    }
    lemma_group_step(t, gs, alias, 14, 9);
    assert forall|j: int| 0 <= j < gs[8].0.len() implies t[13 + j] == (#[trigger] gs[8].0[j], gs[8].1) by {
            if j == 0 {
                assert(t[13] == (gs[8].0[0], gs[8].1));
            }
    }
    lemma_group_step(t, gs, alias, 13, 8);
    assert forall|j: int| 0 <= j < gs[7].0.len() implies t[12 + j] == (#[trigger] gs[7].0[j], gs[7].1) by {
            if j == 0 {
                assert(t[12] == (gs[7].0[0], gs[7].1));
            }
    }
    lemma_group_step(t, gs, alias, 12, 7);
    assert forall|j: int| 0 <= j < gs[6].0.len() implies t[11 + j] == (#[trigger] gs[6].0[j], gs[6].1) by {
            if j == 0 {
                assert(t[11] == (gs[6].0[0], gs[6].1));
            }
    }
    lemma_group_step(t, gs, alias, 11, 6);
}

proof fn lemma_alias_groups_from_0(alias: Seq<char>)
    requires
        alias_lookup(boss_aliases().subrange(11, 324), alias) == grouped_alias_lookup(boss_alias_groups().subrange(6, 146), alias),
    ensures
        alias_lookup(boss_aliases().subrange(0, 324), alias) == grouped_alias_lookup(boss_alias_groups().subrange(0, 146), alias),
{
    let t = boss_aliases();
    let gs = boss_alias_groups();
    assert(t.len() == 324);
    assert(gs.len() == 146);
    assert forall|j: int| 0 <= j < gs[5].0.len() implies t[10 + j] == (#[trigger] gs[5].0[j], gs[5].1) by {
            if j == 0 {
                assert(t[10] == (gs[5].0[0], gs[5].1));
            }
    }
    lemma_group_step(t, gs, alias, 10, 5);
    assert forall|j: int| 0 <= j < gs[4].0.len() implies t[5 + j] == (#[trigger] gs[4].0[j], gs[4].1) by {
            if j == 0 {
                assert(t[5] == (gs[4].0[0], gs[4].1));
            } else if j == 1 {
                assert(t[6] == (gs[4].0[1], gs[4].1));
            } else if j == 2 {
                assert(t[7] == (gs[4].0[2], gs[4].1));
            } else if j == 3 {
                assert(t[8] == (gs[4].0[3], gs[4].1));
            } else if j == 4 {
                assert(t[9] == (gs[4].0[4], gs[4].1));
            }
    }
    lemma_group_step(t, gs, alias, 5, 4);
    assert forall|j: int| 0 <= j < gs[3].0.len() implies t[4 + j] == (#[trigger] gs[3].0[j], gs[3].1) by {
            if j == 0 {
                assert(t[4] == (gs[3].0[0], gs[3].1));
            }
    }
    lemma_group_step(t, gs, alias, 4, 3);
    assert forall|j: int| 0 <= j < gs[2].0.len() implies t[3 + j] == (#[trigger] gs[2].0[j], gs[2].1) by {
            if j == 0 {
                assert(t[3] == (gs[2].0[0], gs[2].1));
            }
    }
    lemma_group_step(t, gs, alias, 3, 2);
    assert forall|j: int| 0 <= j < gs[1].0.len() implies t[1 + j] == (#[trigger] gs[1].0[j], gs[1].1) by {
            if j == 0 {
                assert(t[1] == (gs[1].0[0], gs[1].1));
            } else if j == 1 {
                assert(t[2] == (gs[1].0[1], gs[1].1));
            }
    }
    lemma_group_step(t, gs, alias, 1, 1);
    assert forall|j: int| 0 <= j < gs[0].0.len() implies t[0 + j] == (#[trigger] gs[0].0[j], gs[0].1) by {
            if j == 0 {
                assert(t[0] == (gs[0].0[0], gs[0].1));
            }
    }
    lemma_group_step(t, gs, alias, 0, 0);
}

/// The alias table says what the grouped table of short names says: every short name gives
/// the long name of the first group that lists it, and a name no group lists gives none.
#[verifier::rlimit(40)]
pub proof fn lemma_boss_aliases_follow_groups(alias: Seq<char>)
    ensures
        alias_lookup(boss_aliases(), alias) == grouped_alias_lookup(boss_alias_groups(), alias),
{
    let t = boss_aliases();
    let gs = boss_alias_groups();
    assert(t.len() == 324);
    assert(gs.len() == 146);
    assert(t.subrange(324, 324).len() == 0);
    assert(gs.subrange(146, 146).len() == 0);
    lemma_alias_groups_from_136(alias);
    lemma_alias_groups_from_126(alias);
    lemma_alias_groups_from_116(alias);
    lemma_alias_groups_from_106(alias);
    lemma_alias_groups_from_96(alias);
    lemma_alias_groups_from_86(alias);
    lemma_alias_groups_from_76(alias);
    lemma_alias_groups_from_66(alias);
    lemma_alias_groups_from_56(alias);
    lemma_alias_groups_from_46(alias);
    lemma_alias_groups_from_36(alias);
    lemma_alias_groups_from_26(alias);
    lemma_alias_groups_from_16(alias);
    lemma_alias_groups_from_6(alias);
    lemma_alias_groups_from_0(alias);
    assert(t.subrange(0, 324) =~= t);
    assert(gs.subrange(0, 146) =~= gs);
}

} // verus!
