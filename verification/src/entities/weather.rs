//! Weather: site reports and the site query.
use vstd::prelude::*;
use vstd::string::StringExecFns;

use crate::json::Decimal;
use crate::json::Json;
use crate::json::field_keys;
use crate::json::get_dec;
use crate::json::get_i64;
use crate::json::get_json;
use crate::json::get_opt_dec;
use crate::json::get_opt_i64;
use crate::json::get_opt_str;
use crate::json::i64_to_json;
use crate::json::lemma_obj_get_found;
use crate::json::obj_get;
use crate::json::obj_view;
use crate::json::opt_dec_to_json;
use crate::json::opt_i64_to_json;
use crate::json::opt_str_to_json;
use crate::json::opt_vec_view;
use crate::json::push_field;
use crate::json::sget_dec;
use crate::json::sget_i64;
use crate::json::sget_opt_dec;
use crate::json::sget_opt_i64;
use crate::json::sget_opt_str;

verus! {

/// One reported weather condition at a site.
#[derive(Clone, Debug, PartialEq)]
pub struct WeatherCondition {
    pub id: Option<i64>,
    pub main: Option<String>,
    pub description: Option<String>,
    pub icon: Option<String>,
}

/// The wire keys of this record, in the order the client writes them.
pub open spec fn weather_condition_keys() -> Seq<Seq<char>> {
    seq!["id"@, "main"@, "description"@, "icon"@]
}

/// Decodes from an object's fields.
pub open spec fn weather_condition_from_fields(fs: Seq<(Seq<char>, Json)>) -> Option<WeatherCondition> {
    if {
        &&& sget_opt_i64(fs, "id"@) is Some
        &&& sget_opt_str(fs, "main"@) is Some
        &&& sget_opt_str(fs, "description"@) is Some
        &&& sget_opt_str(fs, "icon"@) is Some
    } {
        Some(
            WeatherCondition {
                id: sget_opt_i64(fs, "id"@).unwrap(),
                main: sget_opt_str(fs, "main"@).unwrap(),
                description: sget_opt_str(fs, "description"@).unwrap(),
                icon: sget_opt_str(fs, "icon"@).unwrap(),
            },
        )
    } else {
        None
    }
}

/// Decodes from a JSON value.
pub open spec fn weather_condition_from_json(j: Json) -> Option<WeatherCondition> {
    match j {
        Json::Obj(fields) => weather_condition_from_fields(obj_view(fields@)),
        _ => None,
    }
}

impl WeatherCondition {
    /// Encodes to the wire object: exactly the keys of `weather_condition_keys`, in
    /// order; decoding the result yields this value back.
    pub fn to_json(&self) -> (j: Json)
        ensures
            (j matches Json::Obj(fields) && field_keys(fields@) == weather_condition_keys()),
            weather_condition_from_json(j) == Some(*self),
    {
        let mut fields: Vec<(String, Json)> = Vec::new();
        push_field(&mut fields, "id", opt_i64_to_json(&self.id));
        push_field(&mut fields, "main", opt_str_to_json(&self.main));
        push_field(&mut fields, "description", opt_str_to_json(&self.description));
        push_field(&mut fields, "icon", opt_str_to_json(&self.icon));
        proof {
            reveal_strlit("id");
            reveal_strlit("main");
            reveal_strlit("description");
            reveal_strlit("icon");
            assert("id"@.len() == 2);
            assert("main"@.len() == 4);
            assert("description"@.len() == 11);
            assert("icon"@.len() == 4);
            assert("main"@[0] == 'm');
            assert("icon"@[0] == 'i');
            assert(field_keys(fields@) =~= weather_condition_keys());
            let fs = obj_view(fields@);
            assert(fs.len() == 4);
            assert(fs[0].0 == "id"@);
            assert(fs[1].0 == "main"@);
            assert(fs[2].0 == "description"@);
            assert(fs[3].0 == "icon"@);
            lemma_obj_get_found(fs, "id"@, 0);
            lemma_obj_get_found(fs, "main"@, 1);
            lemma_obj_get_found(fs, "description"@, 2);
            lemma_obj_get_found(fs, "icon"@, 3);
            if let Some(n) = self.id {
                crate::num::lemma_parse_dec_i64(n);
            }
            assert(sget_opt_i64(fs, "id"@) == Some(self.id));
            assert(sget_opt_str(fs, "main"@) == Some(self.main));
            assert(sget_opt_str(fs, "description"@) == Some(self.description));
            assert(sget_opt_str(fs, "icon"@) == Some(self.icon));
            assert(weather_condition_from_fields(fs) == Some(*self));
        }
        Json::Obj(fields)
    }

    /// Decodes from a JSON value; `None` on any shape mismatch.
    pub fn from_json(j: &Json) -> (r: Option<WeatherCondition>)
        ensures
            r == weather_condition_from_json(*j),
    {
        match j {
            Json::Obj(fields) => {
                let id = match get_opt_i64(fields, "id") {
                    Some(v) => v,
                    None => {
                        return None;
                    },
                };
                let main = match get_opt_str(fields, "main") {
                    Some(v) => v,
                    None => {
                        return None;
                    },
                };
                let description = match get_opt_str(fields, "description") {
                    Some(v) => v,
                    None => {
                        return None;
                    },
                };
                let icon = match get_opt_str(fields, "icon") {
                    Some(v) => v,
                    None => {
                        return None;
                    },
                };
                Some(
                    WeatherCondition {
                        id, main, description, icon,
                    },
                )
            },
            _ => None,
        }
    }
}

/// Decodes each element of a JSON array.
pub open spec fn weather_conditions_from_arr(items: Seq<Json>) -> Option<Seq<WeatherCondition>>
    decreases items.len(),
{
    if items.len() == 0 {
        Some(Seq::empty())
    } else {
        match weather_conditions_from_arr(items.drop_last()) {
            Some(init) => match weather_condition_from_json(items.last()) {
                Some(x) => Some(init + seq![x]),
                None => None,
            },
            None => None,
        }
    }
}

/// Decodes a JSON array of these records.
pub open spec fn weather_condition_vec_from_json(j: Json) -> Option<Seq<WeatherCondition>> {
    match j {
        Json::Arr(items) => weather_conditions_from_arr(items@),
        _ => None,
    }
}

proof fn lemma_weather_conditions_from_arr_fails(items: Seq<Json>, i: int)
    requires
        0 <= i < items.len(),
        weather_condition_from_json(items[i]) is None,
    ensures
        weather_conditions_from_arr(items) is None,
    decreases items.len(),
{
    if items.len() > 0 {
        if i < items.len() - 1 {
            assert(items.drop_last()[i] == items[i]);
            lemma_weather_conditions_from_arr_fails(items.drop_last(), i);
        }
    }
}

/// Decodes a JSON array of these records; `None` on any mismatch.
#[verifier::loop_isolation(false)]
pub fn weather_conditions_from_json(j: &Json) -> (r: Option<Vec<WeatherCondition>>)
    ensures
        opt_vec_view(r) == weather_condition_vec_from_json(*j),
{
    match j {
        Json::Arr(items) => {
            let mut out: Vec<WeatherCondition> = Vec::new();
            let mut i: usize = 0;
            while i < items.len()
                invariant
                    i <= items@.len(),
                    weather_conditions_from_arr(items@.take(i as int)) == Some(out@),
                decreases items@.len() - i,
            {
                match WeatherCondition::from_json(&items[i]) {
                    Some(x) => {
                        out.push(x);
                    },
                    None => {
                        proof {
                            lemma_weather_conditions_from_arr_fails(items@, i as int);
                        }
                        return None;
                    },
                }
                proof {
                    let t = items@.take(i + 1);
                    assert(t.drop_last() =~= items@.take(i as int));
                    assert(t.last() == items@[i as int]);
                }
                i += 1;
            }
            proof {
                assert(items@.take(items@.len() as int) =~= items@);
            }
            Some(out)
        },
        _ => None,
    }
}

/// Builds the JSON array of these records; decoding it yields the same
/// records back.
pub fn weather_conditions_to_json(v: &Vec<WeatherCondition>) -> (j: Json)
    ensures
        (j matches Json::Arr(items) && weather_conditions_from_arr(items@) == Some(v@) && items@.len() == v@.len()),
{
    let mut items: Vec<Json> = Vec::new();
    let mut i: usize = 0;
    while i < v.len()
        invariant
            i <= v@.len(),
            items@.len() == i,
            weather_conditions_from_arr(items@) == Some(v@.take(i as int)),
        decreases v@.len() - i,
    {
        let ghost prev = items@;
        items.push(v[i].to_json());
        proof {
            assert(items@.drop_last() =~= prev);
            assert(v@.take(i + 1) =~= v@.take(i as int) + seq![v@[i as int]]);
        }
        i += 1;
    }
    proof {
        assert(v@.take(v@.len() as int) =~= v@);
    }
    Json::Arr(items)
}

/// The current conditions at a site.
#[derive(Clone, Debug, PartialEq)]
pub struct CurrentWeather {
    pub dt: Option<i64>,
    pub sunrise: Option<i64>,
    pub sunset: Option<i64>,
    pub temp: Decimal,
    pub feels_like: Option<Decimal>,
    pub pressure: Option<i64>,
    pub humidity: Option<i64>,
    pub dew_point: Option<Decimal>,
    pub uvi: Option<Decimal>,
    pub clouds: Option<i64>,
    pub visibility: Option<i64>,
    pub wind_speed: Option<Decimal>,
    pub wind_deg: Option<i64>,
    pub wind_gust: Option<Decimal>,
    pub weather: Option<Vec<WeatherCondition>>,
}

/// The wire keys of this record, in the order the client writes them.
pub open spec fn current_weather_keys() -> Seq<Seq<char>> {
    seq!["dt"@, "sunrise"@, "sunset"@, "temp"@, "feelsLike"@, "pressure"@, "humidity"@, "dewPoint"@, "uvi"@, "clouds"@, "visibility"@, "windSpeed"@, "windDeg"@, "windGust"@, "weather"@]
}

/// The fields decode into exactly this value.
pub open spec fn current_weather_decodes_fields(fs: Seq<(Seq<char>, Json)>, x: CurrentWeather) -> bool {
    &&& sget_opt_i64(fs, "dt"@) == Some(x.dt)
    &&& sget_opt_i64(fs, "sunrise"@) == Some(x.sunrise)
    &&& sget_opt_i64(fs, "sunset"@) == Some(x.sunset)
    &&& sget_dec(fs, "temp"@) == Some(x.temp)
    &&& sget_opt_dec(fs, "feelsLike"@) == Some(x.feels_like)
    &&& sget_opt_i64(fs, "pressure"@) == Some(x.pressure)
    &&& sget_opt_i64(fs, "humidity"@) == Some(x.humidity)
    &&& sget_opt_dec(fs, "dewPoint"@) == Some(x.dew_point)
    &&& sget_opt_dec(fs, "uvi"@) == Some(x.uvi)
    &&& sget_opt_i64(fs, "clouds"@) == Some(x.clouds)
    &&& sget_opt_i64(fs, "visibility"@) == Some(x.visibility)
    &&& sget_opt_dec(fs, "windSpeed"@) == Some(x.wind_speed)
    &&& sget_opt_i64(fs, "windDeg"@) == Some(x.wind_deg)
    &&& sget_opt_dec(fs, "windGust"@) == Some(x.wind_gust)
    &&& (match obj_get(fs, "weather"@) {
        None => x.weather is None,
        Some(v) => match v {
            Json::Null => x.weather is None,
            Json::Arr(items) => x.weather is Some && weather_conditions_from_arr(items@) == Some(
                x.weather.unwrap()@,
            ),
            _ => false,
        },
    })
}

/// Every field is present with a decodable shape.
pub open spec fn current_weather_shape_ok(fs: Seq<(Seq<char>, Json)>) -> bool {
    &&& sget_opt_i64(fs, "dt"@) is Some
    &&& sget_opt_i64(fs, "sunrise"@) is Some
    &&& sget_opt_i64(fs, "sunset"@) is Some
    &&& sget_dec(fs, "temp"@) is Some
    &&& sget_opt_dec(fs, "feelsLike"@) is Some
    &&& sget_opt_i64(fs, "pressure"@) is Some
    &&& sget_opt_i64(fs, "humidity"@) is Some
    &&& sget_opt_dec(fs, "dewPoint"@) is Some
    &&& sget_opt_dec(fs, "uvi"@) is Some
    &&& sget_opt_i64(fs, "clouds"@) is Some
    &&& sget_opt_i64(fs, "visibility"@) is Some
    &&& sget_opt_dec(fs, "windSpeed"@) is Some
    &&& sget_opt_i64(fs, "windDeg"@) is Some
    &&& sget_opt_dec(fs, "windGust"@) is Some
    &&& (match obj_get(fs, "weather"@) {
        None => true,
        Some(v) => match v {
            Json::Null => true,
            Json::Arr(items) => weather_conditions_from_arr(items@) is Some,
            _ => false,
        },
    })
}

/// The JSON value decodes into exactly this value.
pub open spec fn current_weather_decodes_to(j: Json, x: CurrentWeather) -> bool {
    match j {
        Json::Obj(fields) => current_weather_decodes_fields(obj_view(fields@), x),
        _ => false,
    }
}

/// The JSON value has the shape this record decodes from.
pub open spec fn current_weather_json_ok(j: Json) -> bool {
    match j {
        Json::Obj(fields) => current_weather_shape_ok(obj_view(fields@)),
        _ => false,
    }
}

impl CurrentWeather {
    /// Encodes to the wire object: exactly the keys of `current_weather_keys`, in
    /// order; decoding the result yields this value back.
    #[verifier::rlimit(100)]
    pub fn to_json(&self) -> (j: Json)
        ensures
            (j matches Json::Obj(fields) && field_keys(fields@) == current_weather_keys()),
            current_weather_decodes_to(j, *self),
    {
        let mut fields: Vec<(String, Json)> = Vec::new();
        push_field(&mut fields, "dt", opt_i64_to_json(&self.dt));
        push_field(&mut fields, "sunrise", opt_i64_to_json(&self.sunrise));
        push_field(&mut fields, "sunset", opt_i64_to_json(&self.sunset));
        push_field(&mut fields, "temp", Json::Num(self.temp.text.clone()));
        push_field(&mut fields, "feelsLike", opt_dec_to_json(&self.feels_like));
        push_field(&mut fields, "pressure", opt_i64_to_json(&self.pressure));
        push_field(&mut fields, "humidity", opt_i64_to_json(&self.humidity));
        push_field(&mut fields, "dewPoint", opt_dec_to_json(&self.dew_point));
        push_field(&mut fields, "uvi", opt_dec_to_json(&self.uvi));
        push_field(&mut fields, "clouds", opt_i64_to_json(&self.clouds));
        push_field(&mut fields, "visibility", opt_i64_to_json(&self.visibility));
        push_field(&mut fields, "windSpeed", opt_dec_to_json(&self.wind_speed));
        push_field(&mut fields, "windDeg", opt_i64_to_json(&self.wind_deg));
        push_field(&mut fields, "windGust", opt_dec_to_json(&self.wind_gust));
        push_field(&mut fields, "weather", (match &self.weather {
            Some(v) => weather_conditions_to_json(v),
            None => Json::Null,
        }));
        proof {
            reveal_strlit("dt");
            reveal_strlit("sunrise");
            reveal_strlit("sunset");
            reveal_strlit("temp");
            reveal_strlit("feelsLike");
            reveal_strlit("pressure");
            reveal_strlit("humidity");
            reveal_strlit("dewPoint");
            reveal_strlit("uvi");
            reveal_strlit("clouds");
            reveal_strlit("visibility");
            reveal_strlit("windSpeed");
            reveal_strlit("windDeg");
            reveal_strlit("windGust");
            reveal_strlit("weather");
            assert("dt"@.len() == 2);
            assert("sunrise"@.len() == 7);
            assert("sunset"@.len() == 6);
            assert("temp"@.len() == 4);
            assert("feelsLike"@.len() == 9);
            assert("pressure"@.len() == 8);
            assert("humidity"@.len() == 8);
            assert("dewPoint"@.len() == 8);
            assert("uvi"@.len() == 3);
            assert("clouds"@.len() == 6);
            assert("visibility"@.len() == 10);
            assert("windSpeed"@.len() == 9);
            assert("windDeg"@.len() == 7);
            assert("windGust"@.len() == 8);
            assert("weather"@.len() == 7);
            assert("sunrise"@[0] == 's');
            assert("windDeg"@[0] == 'w');
            assert("weather"@[0] == 'w');
            assert("windDeg"@[1] == 'i');
            assert("weather"@[1] == 'e');
            assert("sunset"@[0] == 's');
            assert("clouds"@[0] == 'c');
            assert("feelsLike"@[0] == 'f');
            assert("windSpeed"@[0] == 'w');
            assert("pressure"@[0] == 'p');
            assert("humidity"@[0] == 'h');
            assert("dewPoint"@[0] == 'd');
            assert("windGust"@[0] == 'w');
            assert(field_keys(fields@) =~= current_weather_keys());
            let fs = obj_view(fields@);
            assert(fs.len() == 15);
            assert(fs[0].0 == "dt"@);
            assert(fs[1].0 == "sunrise"@);
            assert(fs[2].0 == "sunset"@);
            assert(fs[3].0 == "temp"@);
            assert(fs[4].0 == "feelsLike"@);
            assert(fs[5].0 == "pressure"@);
            assert(fs[6].0 == "humidity"@);
            assert(fs[7].0 == "dewPoint"@);
            assert(fs[8].0 == "uvi"@);
            assert(fs[9].0 == "clouds"@);
            assert(fs[10].0 == "visibility"@);
            assert(fs[11].0 == "windSpeed"@);
            assert(fs[12].0 == "windDeg"@);
            assert(fs[13].0 == "windGust"@);
            assert(fs[14].0 == "weather"@);
            lemma_obj_get_found(fs, "dt"@, 0);
            lemma_obj_get_found(fs, "sunrise"@, 1);
            lemma_obj_get_found(fs, "sunset"@, 2);
            lemma_obj_get_found(fs, "temp"@, 3);
            lemma_obj_get_found(fs, "feelsLike"@, 4);
            lemma_obj_get_found(fs, "pressure"@, 5);
            lemma_obj_get_found(fs, "humidity"@, 6);
            lemma_obj_get_found(fs, "dewPoint"@, 7);
            lemma_obj_get_found(fs, "uvi"@, 8);
            lemma_obj_get_found(fs, "clouds"@, 9);
            lemma_obj_get_found(fs, "visibility"@, 10);
            lemma_obj_get_found(fs, "windSpeed"@, 11);
            lemma_obj_get_found(fs, "windDeg"@, 12);
            lemma_obj_get_found(fs, "windGust"@, 13);
            lemma_obj_get_found(fs, "weather"@, 14);
            if let Some(n) = self.dt {
                crate::num::lemma_parse_dec_i64(n);
            }
            if let Some(n) = self.sunrise {
                crate::num::lemma_parse_dec_i64(n);
            }
            if let Some(n) = self.sunset {
                crate::num::lemma_parse_dec_i64(n);
            }
            if let Some(n) = self.pressure {
                crate::num::lemma_parse_dec_i64(n);
            }
            if let Some(n) = self.humidity {
                crate::num::lemma_parse_dec_i64(n);
            }
            if let Some(n) = self.clouds {
                crate::num::lemma_parse_dec_i64(n);
            }
            if let Some(n) = self.visibility {
                crate::num::lemma_parse_dec_i64(n);
            }
            if let Some(n) = self.wind_deg {
                crate::num::lemma_parse_dec_i64(n);
            }
            assert(sget_opt_i64(fs, "dt"@) == Some(self.dt));
            assert(sget_opt_i64(fs, "sunrise"@) == Some(self.sunrise));
            assert(sget_opt_i64(fs, "sunset"@) == Some(self.sunset));
            assert(sget_dec(fs, "temp"@) == Some(self.temp));
            assert(sget_opt_dec(fs, "feelsLike"@) == Some(self.feels_like));
            assert(sget_opt_i64(fs, "pressure"@) == Some(self.pressure));
            assert(sget_opt_i64(fs, "humidity"@) == Some(self.humidity));
            assert(sget_opt_dec(fs, "dewPoint"@) == Some(self.dew_point));
            assert(sget_opt_dec(fs, "uvi"@) == Some(self.uvi));
            assert(sget_opt_i64(fs, "clouds"@) == Some(self.clouds));
            assert(sget_opt_i64(fs, "visibility"@) == Some(self.visibility));
            assert(sget_opt_dec(fs, "windSpeed"@) == Some(self.wind_speed));
            assert(sget_opt_i64(fs, "windDeg"@) == Some(self.wind_deg));
            assert(sget_opt_dec(fs, "windGust"@) == Some(self.wind_gust));
            assert((match obj_get(fs, "weather"@) {
        None => self.weather is None,
        Some(v) => match v {
            Json::Null => self.weather is None,
            Json::Arr(items) => self.weather is Some && weather_conditions_from_arr(items@) == Some(
                self.weather.unwrap()@,
            ),
            _ => false,
        },
    }));
            assert(current_weather_decodes_fields(fs, *self));
        }
        Json::Obj(fields)
    }

    /// Decodes from a JSON value; `None` on any shape mismatch.
    pub fn from_json(j: &Json) -> (r: Option<CurrentWeather>)
        ensures
            (match r {
                Some(x) => current_weather_decodes_to(*j, x),
                None => !current_weather_json_ok(*j),
            }),
    {
        match j {
            Json::Obj(fields) => {
                let dt = match get_opt_i64(fields, "dt") {
                    Some(v) => v,
                    None => {
                        return None;
                    },
                };
                let sunrise = match get_opt_i64(fields, "sunrise") {
                    Some(v) => v,
                    None => {
                        return None;
                    },
                };
                let sunset = match get_opt_i64(fields, "sunset") {
                    Some(v) => v,
                    None => {
                        return None;
                    },
                };
                let temp = match get_dec(fields, "temp") {
                    Some(v) => v,
                    None => {
                        return None;
                    },
                };
                let feels_like = match get_opt_dec(fields, "feelsLike") {
                    Some(v) => v,
                    None => {
                        return None;
                    },
                };
                let pressure = match get_opt_i64(fields, "pressure") {
                    Some(v) => v,
                    None => {
                        return None;
                    },
                };
                let humidity = match get_opt_i64(fields, "humidity") {
                    Some(v) => v,
                    None => {
                        return None;
                    },
                };
                let dew_point = match get_opt_dec(fields, "dewPoint") {
                    Some(v) => v,
                    None => {
                        return None;
                    },
                };
                let uvi = match get_opt_dec(fields, "uvi") {
                    Some(v) => v,
                    None => {
                        return None;
                    },
                };
                let clouds = match get_opt_i64(fields, "clouds") {
                    Some(v) => v,
                    None => {
                        return None;
                    },
                };
                let visibility = match get_opt_i64(fields, "visibility") {
                    Some(v) => v,
                    None => {
                        return None;
                    },
                };
                let wind_speed = match get_opt_dec(fields, "windSpeed") {
                    Some(v) => v,
                    None => {
                        return None;
                    },
                };
                let wind_deg = match get_opt_i64(fields, "windDeg") {
                    Some(v) => v,
                    None => {
                        return None;
                    },
                };
                let wind_gust = match get_opt_dec(fields, "windGust") {
                    Some(v) => v,
                    None => {
                        return None;
                    },
                };
                let weather = match get_json(fields, "weather") {
                    Some(v) => match v {
                        Json::Null => None,
                        Json::Arr(_) => match weather_conditions_from_json(v) {
                            Some(x) => Some(x),
                            None => {
                                return None;
                            },
                        },
                        _ => {
                            return None;
                        },
                    },
                    None => None,
                };
                Some(
                    CurrentWeather {
                        dt, sunrise, sunset, temp, feels_like, pressure, humidity, dew_point,
                        uvi, clouds, visibility, wind_speed, wind_deg, wind_gust, weather,
                    },
                )
            },
            _ => None,
        }
    }
}

/// Forecast precipitation for one minute.
#[derive(Clone, Debug, PartialEq)]
pub struct MinutelyForecast {
    pub dt: i64,
    pub precipitation: Decimal,
}

/// The wire keys of this record, in the order the client writes them.
pub open spec fn minutely_forecast_keys() -> Seq<Seq<char>> {
    seq!["dt"@, "precipitation"@]
}

/// Decodes from an object's fields.
pub open spec fn minutely_forecast_from_fields(fs: Seq<(Seq<char>, Json)>) -> Option<MinutelyForecast> {
    if {
        &&& sget_i64(fs, "dt"@) is Some
        &&& sget_dec(fs, "precipitation"@) is Some
    } {
        Some(
            MinutelyForecast {
                dt: sget_i64(fs, "dt"@).unwrap(),
                precipitation: sget_dec(fs, "precipitation"@).unwrap(),
            },
        )
    } else {
        None
    }
}

/// Decodes from a JSON value.
pub open spec fn minutely_forecast_from_json(j: Json) -> Option<MinutelyForecast> {
    match j {
        Json::Obj(fields) => minutely_forecast_from_fields(obj_view(fields@)),
        _ => None,
    }
}

impl MinutelyForecast {
    /// Encodes to the wire object: exactly the keys of `minutely_forecast_keys`, in
    /// order; decoding the result yields this value back.
    pub fn to_json(&self) -> (j: Json)
        ensures
            (j matches Json::Obj(fields) && field_keys(fields@) == minutely_forecast_keys()),
            minutely_forecast_from_json(j) == Some(*self),
    {
        let mut fields: Vec<(String, Json)> = Vec::new();
        push_field(&mut fields, "dt", i64_to_json(self.dt));
        push_field(&mut fields, "precipitation", Json::Num(self.precipitation.text.clone()));
        proof {
            reveal_strlit("dt");
            reveal_strlit("precipitation");
            assert("dt"@.len() == 2);
            assert("precipitation"@.len() == 13);
            assert(field_keys(fields@) =~= minutely_forecast_keys());
            let fs = obj_view(fields@);
            assert(fs.len() == 2);
            assert(fs[0].0 == "dt"@);
            assert(fs[1].0 == "precipitation"@);
            lemma_obj_get_found(fs, "dt"@, 0);
            lemma_obj_get_found(fs, "precipitation"@, 1);
            crate::num::lemma_parse_dec_i64(self.dt);
            assert(sget_i64(fs, "dt"@) == Some(self.dt));
            assert(sget_dec(fs, "precipitation"@) == Some(self.precipitation));
            assert(minutely_forecast_from_fields(fs) == Some(*self));
        }
        Json::Obj(fields)
    }

    /// Decodes from a JSON value; `None` on any shape mismatch.
    pub fn from_json(j: &Json) -> (r: Option<MinutelyForecast>)
        ensures
            r == minutely_forecast_from_json(*j),
    {
        match j {
            Json::Obj(fields) => {
                let dt = match get_i64(fields, "dt") {
                    Some(v) => v,
                    None => {
                        return None;
                    },
                };
                let precipitation = match get_dec(fields, "precipitation") {
                    Some(v) => v,
                    None => {
                        return None;
                    },
                };
                Some(
                    MinutelyForecast {
                        dt, precipitation,
                    },
                )
            },
            _ => None,
        }
    }
}

/// Decodes each element of a JSON array.
pub open spec fn minutely_forecasts_from_arr(items: Seq<Json>) -> Option<Seq<MinutelyForecast>>
    decreases items.len(),
{
    if items.len() == 0 {
        Some(Seq::empty())
    } else {
        match minutely_forecasts_from_arr(items.drop_last()) {
            Some(init) => match minutely_forecast_from_json(items.last()) {
                Some(x) => Some(init + seq![x]),
                None => None,
            },
            None => None,
        }
    }
}

/// Decodes a JSON array of these records.
pub open spec fn minutely_forecast_vec_from_json(j: Json) -> Option<Seq<MinutelyForecast>> {
    match j {
        Json::Arr(items) => minutely_forecasts_from_arr(items@),
        _ => None,
    }
}

proof fn lemma_minutely_forecasts_from_arr_fails(items: Seq<Json>, i: int)
    requires
        0 <= i < items.len(),
        minutely_forecast_from_json(items[i]) is None,
    ensures
        minutely_forecasts_from_arr(items) is None,
    decreases items.len(),
{
    if items.len() > 0 {
        if i < items.len() - 1 {
            assert(items.drop_last()[i] == items[i]);
            lemma_minutely_forecasts_from_arr_fails(items.drop_last(), i);
        }
    }
}

/// Decodes a JSON array of these records; `None` on any mismatch.
#[verifier::loop_isolation(false)]
pub fn minutely_forecasts_from_json(j: &Json) -> (r: Option<Vec<MinutelyForecast>>)
    ensures
        opt_vec_view(r) == minutely_forecast_vec_from_json(*j),
{
    match j {
        Json::Arr(items) => {
            let mut out: Vec<MinutelyForecast> = Vec::new();
            let mut i: usize = 0;
            while i < items.len()
                invariant
                    i <= items@.len(),
                    minutely_forecasts_from_arr(items@.take(i as int)) == Some(out@),
                decreases items@.len() - i,
            {
                match MinutelyForecast::from_json(&items[i]) {
                    Some(x) => {
                        out.push(x);
                    },
                    None => {
                        proof {
                            lemma_minutely_forecasts_from_arr_fails(items@, i as int);
                        }
                        return None;
                    },
                }
                proof {
                    let t = items@.take(i + 1);
                    assert(t.drop_last() =~= items@.take(i as int));
                    assert(t.last() == items@[i as int]);
                }
                i += 1;
            }
            proof {
                assert(items@.take(items@.len() as int) =~= items@);
            }
            Some(out)
        },
        _ => None,
    }
}

/// Builds the JSON array of these records; decoding it yields the same
/// records back.
pub fn minutely_forecasts_to_json(v: &Vec<MinutelyForecast>) -> (j: Json)
    ensures
        (j matches Json::Arr(items) && minutely_forecasts_from_arr(items@) == Some(v@) && items@.len() == v@.len()),
{
    let mut items: Vec<Json> = Vec::new();
    let mut i: usize = 0;
    while i < v.len()
        invariant
            i <= v@.len(),
            items@.len() == i,
            minutely_forecasts_from_arr(items@) == Some(v@.take(i as int)),
        decreases v@.len() - i,
    {
        let ghost prev = items@;
        items.push(v[i].to_json());
        proof {
            assert(items@.drop_last() =~= prev);
            assert(v@.take(i + 1) =~= v@.take(i as int) + seq![v@[i as int]]);
        }
        i += 1;
    }
    proof {
        assert(v@.take(v@.len() as int) =~= v@);
    }
    Json::Arr(items)
}

/// The weather report of a site.
#[derive(Clone, Debug, PartialEq)]
pub struct WeatherResponse {
    pub lat: Decimal,
    pub lon: Decimal,
    pub timezone: Option<String>,
    pub timezone_offset: Option<i64>,
    pub current: CurrentWeather,
    pub minutely: Option<Vec<MinutelyForecast>>,
}

/// The wire keys of this record, in the order the client writes them.
pub open spec fn weather_response_keys() -> Seq<Seq<char>> {
    seq!["lat"@, "lon"@, "timezone"@, "timezoneOffset"@, "current"@, "minutely"@]
}

/// The fields decode into exactly this value.
pub open spec fn weather_response_decodes_fields(fs: Seq<(Seq<char>, Json)>, x: WeatherResponse) -> bool {
    &&& sget_dec(fs, "lat"@) == Some(x.lat)
    &&& sget_dec(fs, "lon"@) == Some(x.lon)
    &&& sget_opt_str(fs, "timezone"@) == Some(x.timezone)
    &&& sget_opt_i64(fs, "timezoneOffset"@) == Some(x.timezone_offset)
    &&& (match obj_get(fs, "current"@) {
        Some(v) => current_weather_decodes_to(v, x.current),
        _ => false,
    })
    &&& (match obj_get(fs, "minutely"@) {
        None => x.minutely is None,
        Some(v) => match v {
            Json::Null => x.minutely is None,
            Json::Arr(items) => x.minutely is Some && minutely_forecasts_from_arr(items@) == Some(
                x.minutely.unwrap()@,
            ),
            _ => false,
        },
    })
}

/// Every field is present with a decodable shape.
pub open spec fn weather_response_shape_ok(fs: Seq<(Seq<char>, Json)>) -> bool {
    &&& sget_dec(fs, "lat"@) is Some
    &&& sget_dec(fs, "lon"@) is Some
    &&& sget_opt_str(fs, "timezone"@) is Some
    &&& sget_opt_i64(fs, "timezoneOffset"@) is Some
    &&& (match obj_get(fs, "current"@) {
        Some(v) => current_weather_json_ok(v),
        _ => false,
    })
    &&& (match obj_get(fs, "minutely"@) {
        None => true,
        Some(v) => match v {
            Json::Null => true,
            Json::Arr(items) => minutely_forecasts_from_arr(items@) is Some,
            _ => false,
        },
    })
}

/// The JSON value decodes into exactly this value.
pub open spec fn weather_response_decodes_to(j: Json, x: WeatherResponse) -> bool {
    match j {
        Json::Obj(fields) => weather_response_decodes_fields(obj_view(fields@), x),
        _ => false,
    }
}

/// The JSON value has the shape this record decodes from.
pub open spec fn weather_response_json_ok(j: Json) -> bool {
    match j {
        Json::Obj(fields) => weather_response_shape_ok(obj_view(fields@)),
        _ => false,
    }
}

impl WeatherResponse {
    /// Encodes to the wire object: exactly the keys of `weather_response_keys`, in
    /// order; decoding the result yields this value back.
    pub fn to_json(&self) -> (j: Json)
        ensures
            (j matches Json::Obj(fields) && field_keys(fields@) == weather_response_keys()),
            weather_response_decodes_to(j, *self),
    {
        let mut fields: Vec<(String, Json)> = Vec::new();
        push_field(&mut fields, "lat", Json::Num(self.lat.text.clone()));
        push_field(&mut fields, "lon", Json::Num(self.lon.text.clone()));
        push_field(&mut fields, "timezone", opt_str_to_json(&self.timezone));
        push_field(&mut fields, "timezoneOffset", opt_i64_to_json(&self.timezone_offset));
        push_field(&mut fields, "current", self.current.to_json());
        push_field(&mut fields, "minutely", (match &self.minutely {
            Some(v) => minutely_forecasts_to_json(v),
            None => Json::Null,
        }));
        proof {
            reveal_strlit("lat");
            reveal_strlit("lon");
            reveal_strlit("timezone");
            reveal_strlit("timezoneOffset");
            reveal_strlit("current");
            reveal_strlit("minutely");
            assert("lat"@.len() == 3);
            assert("lon"@.len() == 3);
            assert("timezone"@.len() == 8);
            assert("timezoneOffset"@.len() == 14);
            assert("current"@.len() == 7);
            assert("minutely"@.len() == 8);
            assert("lat"@[1] == 'a');
            assert("lon"@[1] == 'o');
            assert("timezone"@[0] == 't');
            assert("minutely"@[0] == 'm');
            assert(field_keys(fields@) =~= weather_response_keys());
            let fs = obj_view(fields@);
            assert(fs.len() == 6);
            assert(fs[0].0 == "lat"@);
            assert(fs[1].0 == "lon"@);
            assert(fs[2].0 == "timezone"@);
            assert(fs[3].0 == "timezoneOffset"@);
            assert(fs[4].0 == "current"@);
            assert(fs[5].0 == "minutely"@);
            lemma_obj_get_found(fs, "lat"@, 0);
            lemma_obj_get_found(fs, "lon"@, 1);
            lemma_obj_get_found(fs, "timezone"@, 2);
            lemma_obj_get_found(fs, "timezoneOffset"@, 3);
            lemma_obj_get_found(fs, "current"@, 4);
            lemma_obj_get_found(fs, "minutely"@, 5);
            if let Some(n) = self.timezone_offset {
                crate::num::lemma_parse_dec_i64(n);
            }
            assert(sget_dec(fs, "lat"@) == Some(self.lat));
            assert(sget_dec(fs, "lon"@) == Some(self.lon));
            assert(sget_opt_str(fs, "timezone"@) == Some(self.timezone));
            assert(sget_opt_i64(fs, "timezoneOffset"@) == Some(self.timezone_offset));
            assert((match obj_get(fs, "current"@) {
        Some(v) => current_weather_decodes_to(v, self.current),
        _ => false,
    }));
            assert((match obj_get(fs, "minutely"@) {
        None => self.minutely is None,
        Some(v) => match v {
            Json::Null => self.minutely is None,
            Json::Arr(items) => self.minutely is Some && minutely_forecasts_from_arr(items@) == Some(
                self.minutely.unwrap()@,
            ),
            _ => false,
        },
    }));
            assert(weather_response_decodes_fields(fs, *self));
        }
        Json::Obj(fields)
    }

    /// Decodes from a JSON value; `None` on any shape mismatch.
    pub fn from_json(j: &Json) -> (r: Option<WeatherResponse>)
        ensures
            (match r {
                Some(x) => weather_response_decodes_to(*j, x),
                None => !weather_response_json_ok(*j),
            }),
    {
        match j {
            Json::Obj(fields) => {
                let lat = match get_dec(fields, "lat") {
                    Some(v) => v,
                    None => {
                        return None;
                    },
                };
                let lon = match get_dec(fields, "lon") {
                    Some(v) => v,
                    None => {
                        return None;
                    },
                };
                let timezone = match get_opt_str(fields, "timezone") {
                    Some(v) => v,
                    None => {
                        return None;
                    },
                };
                let timezone_offset = match get_opt_i64(fields, "timezoneOffset") {
                    Some(v) => v,
                    None => {
                        return None;
                    },
                };
                let current = match get_json(fields, "current") {
                    Some(v) => match CurrentWeather::from_json(v) {
                        Some(v) => v,
                        None => {
                            return None;
                        },
                    },
                    None => {
                        return None;
                    },
                };
                let minutely = match get_json(fields, "minutely") {
                    Some(v) => match v {
                        Json::Null => None,
                        Json::Arr(_) => match minutely_forecasts_from_json(v) {
                            Some(x) => Some(x),
                            None => {
                                return None;
                            },
                        },
                        _ => {
                            return None;
                        },
                    },
                    None => None,
                };
                Some(
                    WeatherResponse {
                        lat, lon, timezone, timezone_offset, current, minutely,
                    },
                )
            },
            _ => None,
        }
    }
}

/// The site whose weather is asked for. The coordinates are required.
#[derive(Clone, Debug, PartialEq)]
pub struct WeatherQuery {
    pub latitude: Decimal,
    pub longitude: Decimal,
    pub units: Option<String>,
}

/// The wire keys of this record, in the order the client writes them.
pub open spec fn weather_query_keys() -> Seq<Seq<char>> {
    seq!["latitude"@, "longitude"@, "units"@]
}

/// Decodes from an object's fields.
pub open spec fn weather_query_from_fields(fs: Seq<(Seq<char>, Json)>) -> Option<WeatherQuery> {
    if {
        &&& sget_dec(fs, "latitude"@) is Some
        &&& sget_dec(fs, "longitude"@) is Some
        &&& sget_opt_str(fs, "units"@) is Some
    } {
        Some(
            WeatherQuery {
                latitude: sget_dec(fs, "latitude"@).unwrap(),
                longitude: sget_dec(fs, "longitude"@).unwrap(),
                units: sget_opt_str(fs, "units"@).unwrap(),
            },
        )
    } else {
        None
    }
}

/// Decodes from a JSON value.
pub open spec fn weather_query_from_json(j: Json) -> Option<WeatherQuery> {
    match j {
        Json::Obj(fields) => weather_query_from_fields(obj_view(fields@)),
        _ => None,
    }
}

impl WeatherQuery {
    /// Encodes to the wire object: exactly the keys of `weather_query_keys`, in
    /// order; decoding the result yields this value back.
    pub fn to_json(&self) -> (j: Json)
        ensures
            (j matches Json::Obj(fields) && field_keys(fields@) == weather_query_keys()),
            weather_query_from_json(j) == Some(*self),
    {
        let mut fields: Vec<(String, Json)> = Vec::new();
        push_field(&mut fields, "latitude", Json::Num(self.latitude.text.clone()));
        push_field(&mut fields, "longitude", Json::Num(self.longitude.text.clone()));
        push_field(&mut fields, "units", opt_str_to_json(&self.units));
        proof {
            reveal_strlit("latitude");
            reveal_strlit("longitude");
            reveal_strlit("units");
            assert("latitude"@.len() == 8);
            assert("longitude"@.len() == 9);
            assert("units"@.len() == 5);
            assert(field_keys(fields@) =~= weather_query_keys());
            let fs = obj_view(fields@);
            assert(fs.len() == 3);
            assert(fs[0].0 == "latitude"@);
            assert(fs[1].0 == "longitude"@);
            assert(fs[2].0 == "units"@);
            lemma_obj_get_found(fs, "latitude"@, 0);
            lemma_obj_get_found(fs, "longitude"@, 1);
            lemma_obj_get_found(fs, "units"@, 2);
            assert(sget_dec(fs, "latitude"@) == Some(self.latitude));
            assert(sget_dec(fs, "longitude"@) == Some(self.longitude));
            assert(sget_opt_str(fs, "units"@) == Some(self.units));
            assert(weather_query_from_fields(fs) == Some(*self));
        }
        Json::Obj(fields)
    }

    /// Decodes from a JSON value; `None` on any shape mismatch.
    pub fn from_json(j: &Json) -> (r: Option<WeatherQuery>)
        ensures
            r == weather_query_from_json(*j),
    {
        match j {
            Json::Obj(fields) => {
                let latitude = match get_dec(fields, "latitude") {
                    Some(v) => v,
                    None => {
                        return None;
                    },
                };
                let longitude = match get_dec(fields, "longitude") {
                    Some(v) => v,
                    None => {
                        return None;
                    },
                };
                let units = match get_opt_str(fields, "units") {
                    Some(v) => v,
                    None => {
                        return None;
                    },
                };
                Some(
                    WeatherQuery {
                        latitude, longitude, units,
                    },
                )
            },
            _ => None,
        }
    }
}
} // verus!
